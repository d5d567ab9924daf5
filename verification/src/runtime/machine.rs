//! The control-flow state machine.
//!
//! A machine holds a program, the global scope and a stack of function
//! invocations. [`Machine::step`] runs one instruction. Where the program
//! needs what the library cannot do itself (arithmetic on floats, a native
//! function) the machine says so in its status and waits for the answer,
//! which comes with the next step.
use super::arithmetic::apply;
use super::arithmetic::complete;
use super::arithmetic::spec_apply;
use super::arithmetic::spec_complete;
use super::arithmetic::Applied;
use super::error::Fault;
use super::error::RuntimeError;
use super::error::SpecFault;
use super::function::prepare_call;
use super::function::spec_prepare_call;
use super::function::spec_values_of;
use super::function::spec_write_back;
use super::function::values_of;
use super::function::write_back;
use super::instruction::get_block_index;
use super::instruction::get_function_index;
use super::instruction::spec_get_block_index;
use super::instruction::spec_get_function_index;
use super::instruction::Instruction;
use super::instruction::SpecInstruction;
use super::instruction::SpecProgram;
use super::scope::Scope;
use super::scope::SpecScope;
use super::variable::create_variable;
use super::variable::set_variable;
use super::variable::spec_set_variable;
use super::variable::spec_value_of;
use super::variable::value_of;
use crate::data_type::Data;
use crate::data_type::FloatRequest;
use crate::data_type::Operator;
use crate::data_type::SpecData;
use crate::data_type::SpecStoredValue;
use crate::data_type::SpecType;
use crate::data_type::SpecValueKind;
use crate::data_type::Type;
use crate::data_type::ValueKind;
use crate::text::first_index;
use crate::text::lemma_first_index;
use crate::text::lemma_first_index_extends;
use crate::text::str_eq;
use vstd::prelude::*;

verus! {

/// The declaration of a native function: its name and its parameters, each
/// a name and a type. The function itself is the embedder's.
pub struct InbuiltFunction {
    pub name: String,
    pub params: Vec<(String, Type)>,
}

/// One run through a body: the index of the head that the body follows, and
/// the index of the instruction to run next.
#[derive(Clone, Copy)]
pub struct Region {
    pub entry: usize,
    pub cursor: usize,
}

/// One invocation of a function.
pub struct Frame {
    /// The local scope. The blocks that the invocation enters share it.
    pub locals: Scope,
    /// The variables of the caller that receive what the invocation returns.
    pub outputs: Vec<String>,
    /// The run through the function's own body.
    pub body: Region,
    /// The runs through the blocks entered and not yet left, the innermost
    /// last.
    pub blocks: Vec<Region>,
}

/// What a machine is doing.
pub enum Status {
    /// The next instruction can run.
    Ready,
    /// The instruction at the cursor waits for the float unit's answer to
    /// `request`, which goes to the variable `destination`.
    AwaitingFloat { request: FloatRequest, destination: String },
    /// The call at the cursor waits for the native function `name` to run
    /// on `arguments`. What it returns goes to the variables `outputs`.
    AwaitingNative { name: String, arguments: Scope, outputs: Vec<String> },
    /// The outermost invocation has ended, with these values if it ended in
    /// a `Return`.
    Finished(Option<Vec<Data>>),
}

/// What a step brings to a machine.
pub enum Event {
    /// Nothing: the machine is to go on.
    Continue,
    /// The float unit's answer.
    FloatAnswer(Data),
    /// What the native function returned.
    NativeReturn(Vec<Data>),
}

/// A program in execution.
pub struct Machine<'a> {
    pub program: &'a Vec<Instruction>,
    pub natives: &'a Vec<InbuiltFunction>,
    pub globals: Scope,
    /// The invocation that is running.
    pub current: Frame,
    /// The invocations that wait for it, the outermost first.
    pub callers: Vec<Frame>,
    /// Whether the outermost invocation may end in a `Return`. That of
    /// `main` may not.
    pub may_return: bool,
    pub status: Status,
}

/// The mathematical model of an [`InbuiltFunction`].
pub struct SpecInbuiltFunction {
    pub name: Seq<char>,
    pub params: Seq<(Seq<char>, SpecType)>,
}

/// The mathematical model of a [`Region`].
pub struct SpecRegion {
    pub entry: nat,
    pub cursor: nat,
}

/// The mathematical model of a [`Frame`].
pub struct SpecFrame {
    pub locals: SpecScope,
    pub outputs: Seq<Seq<char>>,
    pub body: SpecRegion,
    pub blocks: Seq<SpecRegion>,
}

/// The mathematical model of a [`Status`].
pub enum SpecStatus {
    Ready,
    AwaitingFloat { request: FloatRequest, destination: Seq<char> },
    AwaitingNative { name: Seq<char>, arguments: SpecScope, outputs: Seq<Seq<char>> },
    Finished(Option<Seq<SpecData>>),
}

/// The mathematical model of an [`Event`].
pub enum SpecEvent {
    Continue,
    FloatAnswer(SpecData),
    NativeReturn(Seq<SpecData>),
}

/// The mathematical model of a [`Machine`].
pub struct SpecMachine {
    pub program: SpecProgram,
    pub natives: Seq<SpecInbuiltFunction>,
    pub globals: SpecScope,
    pub current: SpecFrame,
    pub callers: Seq<SpecFrame>,
    pub may_return: bool,
    pub status: SpecStatus,
}

impl View for InbuiltFunction {
    type V = SpecInbuiltFunction;

    open spec fn view(&self) -> SpecInbuiltFunction {
        SpecInbuiltFunction { name: self.name@, params: self.params.deep_view() }
    }
}

impl DeepView for InbuiltFunction {
    type V = SpecInbuiltFunction;

    open spec fn deep_view(&self) -> SpecInbuiltFunction {
        self.view()
    }
}

impl View for Region {
    type V = SpecRegion;

    open spec fn view(&self) -> SpecRegion {
        SpecRegion { entry: self.entry as nat, cursor: self.cursor as nat }
    }
}

impl DeepView for Region {
    type V = SpecRegion;

    open spec fn deep_view(&self) -> SpecRegion {
        self.view()
    }
}

impl View for Frame {
    type V = SpecFrame;

    open spec fn view(&self) -> SpecFrame {
        SpecFrame {
            locals: self.locals@,
            outputs: self.outputs.deep_view(),
            body: self.body@,
            blocks: self.blocks.deep_view(),
        }
    }
}

impl DeepView for Frame {
    type V = SpecFrame;

    open spec fn deep_view(&self) -> SpecFrame {
        self.view()
    }
}

impl View for Status {
    type V = SpecStatus;

    open spec fn view(&self) -> SpecStatus {
        match self {
            Status::Ready => SpecStatus::Ready,
            Status::AwaitingFloat { request, destination } => SpecStatus::AwaitingFloat {
                request: *request,
                destination: destination@,
            },
            Status::AwaitingNative { name, arguments, outputs } => SpecStatus::AwaitingNative {
                name: name@,
                arguments: arguments@,
                outputs: outputs.deep_view(),
            },
            Status::Finished(values) => SpecStatus::Finished(values.deep_view()),
        }
    }
}

impl View for Event {
    type V = SpecEvent;

    open spec fn view(&self) -> SpecEvent {
        match self {
            Event::Continue => SpecEvent::Continue,
            Event::FloatAnswer(answer) => SpecEvent::FloatAnswer(answer@),
            Event::NativeReturn(values) => SpecEvent::NativeReturn(values.deep_view()),
        }
    }
}

impl<'a> View for Machine<'a> {
    type V = SpecMachine;

    open spec fn view(&self) -> SpecMachine {
        SpecMachine {
            program: self.program.deep_view(),
            natives: self.natives.deep_view(),
            globals: self.globals@,
            current: self.current@,
            callers: self.callers.deep_view(),
            may_return: self.may_return,
            status: self.status@,
        }
    }
}

/// The index that is `skip` instructions beyond the one after `index`, or
/// the end of a program of `len` instructions if that is nearer.
pub open spec fn following(index: nat, skip: nat, len: nat) -> nat {
    if index + 1 + skip <= len {
        index + 1 + skip
    } else {
        len
    }
}

/// The run through the body that follows the head at `entry`, at its start.
pub open spec fn region_at(entry: nat, len: nat) -> SpecRegion {
    SpecRegion { entry, cursor: following(entry, 0, len) }
}

impl SpecFrame {
    /// The run that is in progress: that of the innermost block, or that of
    /// the function's body if no block is entered.
    pub open spec fn region(self) -> SpecRegion {
        if self.blocks.len() > 0 {
            self.blocks.last()
        } else {
            self.body
        }
    }

    /// The frame with the cursor of the run in progress at `cursor`.
    pub open spec fn with_cursor(self, cursor: nat) -> SpecFrame {
        let region = SpecRegion { entry: self.region().entry, cursor };
        if self.blocks.len() > 0 {
            SpecFrame { blocks: self.blocks.update(self.blocks.len() - 1, region), ..self }
        } else {
            SpecFrame { body: region, ..self }
        }
    }

    /// The frame after passing over the instruction at the cursor and `skip`
    /// more.
    pub open spec fn moved(self, skip: nat, len: nat) -> SpecFrame {
        self.with_cursor(following(self.region().cursor, skip, len))
    }

    /// The frame with the run in progress back at its start.
    pub open spec fn restarted(self, len: nat) -> SpecFrame {
        self.with_cursor(following(self.region().entry, 0, len))
    }

    /// The frame after entering the block whose head is at `entry`.
    pub open spec fn entered(self, entry: nat, len: nat) -> SpecFrame {
        SpecFrame { blocks: self.blocks.push(region_at(entry, len)), ..self }
    }

    /// The frame after leaving the innermost block: the run that entered it
    /// goes on behind the instruction that did so.
    pub open spec fn left(self, len: nat) -> SpecFrame
        recommends
            self.blocks.len() > 0,
    {
        SpecFrame { blocks: self.blocks.drop_last(), ..self }.moved(0, len)
    }
}

/// The invocation of the function whose head is at `entry`, at its start.
pub open spec fn invocation(
    entry: nat,
    locals: SpecScope,
    outputs: Seq<Seq<char>>,
    len: nat,
) -> SpecFrame {
    SpecFrame { locals, outputs, body: region_at(entry, len), blocks: Seq::empty() }
}

/// The machine that is about to run the function whose head is at `entry`
/// as its outermost invocation, with `locals` as the local scope. The
/// invocation may return values.
pub open spec fn spec_invoke(
    program: SpecProgram,
    natives: Seq<SpecInbuiltFunction>,
    entry: nat,
    locals: SpecScope,
    globals: SpecScope,
) -> SpecMachine {
    SpecMachine {
        program,
        natives,
        globals,
        current: invocation(entry, locals, Seq::empty(), program.len()),
        callers: Seq::empty(),
        may_return: true,
        status: SpecStatus::Ready,
    }
}

/// The machine that is about to run the function `main`, which a program
/// must have. Nobody called `main`, so it may not return values.
pub open spec fn spec_start(
    program: SpecProgram,
    natives: Seq<SpecInbuiltFunction>,
    globals: SpecScope,
) -> Result<SpecMachine, RuntimeError> {
    match spec_get_function_index(program, "main"@) {
        None => Err(RuntimeError::UndefinedFunction),
        Some(entry) => Ok(
            SpecMachine {
                may_return: false,
                ..spec_invoke(program, natives, entry, Map::empty(), globals)
            },
        ),
    }
}

/// The truth of a condition: the value of the operand, which must be a
/// boolean.
pub open spec fn spec_condition(
    condition: SpecValueKind,
    local: SpecScope,
    global: SpecScope,
) -> Result<bool, RuntimeError> {
    match spec_value_of(condition, local, global) {
        Err(error) => Err(error),
        Ok(SpecData::Boolean(truth)) => Ok(truth),
        Ok(_) => Err(RuntimeError::TypeMismatch),
    }
}

/// The index of the declaration of the native function `name`: of the
/// first, if there are several.
pub open spec fn spec_get_inbuilt_index(natives: Seq<SpecInbuiltFunction>, name: Seq<char>) -> Option<
    nat,
> {
    first_index(natives, |native: SpecInbuiltFunction| native.name == name)
}

impl SpecMachine {
    /// The number of instructions of the program.
    pub open spec fn len(self) -> nat {
        self.program.len()
    }

    /// The machine with the running invocation's scope and the global scope
    /// replaced, behind the instruction at the cursor, ready for the next.
    pub open spec fn advanced(self, local: SpecScope, global: SpecScope) -> SpecMachine {
        SpecMachine {
            globals: global,
            current: SpecFrame { locals: local, ..self.current }.moved(0, self.len()),
            status: SpecStatus::Ready,
            ..self
        }
    }

    /// The step of an operator instruction.
    pub open spec fn operate(
        self,
        operator: Operator,
        lvalue: SpecValueKind,
        rvalue: SpecValueKind,
        avalue: SpecValueKind,
    ) -> Result<SpecMachine, RuntimeError> {
        match spec_apply(operator, lvalue, rvalue, avalue, self.current.locals, self.globals) {
            Err(error) => Err(error),
            Ok((None, local, global)) => Ok(self.advanced(local, global)),
            Ok((Some(request), _, _)) => Ok(
                SpecMachine {
                    status: SpecStatus::AwaitingFloat {
                        request,
                        destination: avalue->Variable_0,
                    },
                    ..self
                },
            ),
        }
    }

    /// The step that enters the block `block`.
    pub open spec fn enter_block(self, block: Seq<char>) -> Result<SpecMachine, RuntimeError> {
        match spec_get_block_index(self.program, block) {
            None => Err(RuntimeError::UndefinedBlock),
            Some(entry) => Ok(
                SpecMachine { current: self.current.entered(entry, self.len()), ..self },
            ),
        }
    }

    /// The step of a conditional instruction: `taken` if the condition is
    /// true, else on to the next instruction.
    pub open spec fn branch(
        self,
        condition: SpecValueKind,
        taken: Result<SpecMachine, RuntimeError>,
    ) -> Result<SpecMachine, RuntimeError> {
        match spec_condition(condition, self.current.locals, self.globals) {
            Err(error) => Err(error),
            Ok(true) => taken,
            Ok(false) => Ok(self.advanced(self.current.locals, self.globals)),
        }
    }

    /// The step that starts the run in progress again.
    pub open spec fn go_back(self) -> SpecMachine {
        SpecMachine { current: self.current.restarted(self.len()), ..self }
    }

    /// The step of a call. A function of the program is looked for first,
    /// then a native function. The first gets an invocation of its own; the
    /// second leaves the machine waiting for the embedder to run it.
    pub open spec fn call(self, name: Seq<char>, arguments: Seq<SpecValueKind>) -> Result<
        SpecMachine,
        RuntimeError,
    > {
        if let Some(entry) = spec_get_function_index(self.program, name) {
            match spec_prepare_call(
                self.program[entry as int]->Function_1,
                arguments,
                self.current.locals,
                self.globals,
            ) {
                Err(error) => Err(error),
                Ok((bound, outputs)) => Ok(
                    SpecMachine {
                        current: SpecFrame {
                            locals: bound,
                            outputs,
                            body: region_at(entry, self.len()),
                            blocks: Seq::empty(),
                        },
                        callers: self.callers.push(self.current),
                        ..self
                    },
                ),
            }
        } else if let Some(index) = spec_get_inbuilt_index(self.natives, name) {
            match spec_prepare_call(
                self.natives[index as int].params,
                arguments,
                self.current.locals,
                self.globals,
            ) {
                Err(error) => Err(error),
                Ok((bound, outputs)) => Ok(
                    SpecMachine {
                        status: SpecStatus::AwaitingNative { name, arguments: bound, outputs },
                        ..self
                    },
                ),
            }
        } else {
            Err(RuntimeError::UndefinedFunction)
        }
    }

    /// The step that ends the running invocation with `returned`. The
    /// outermost invocation finishes the machine, unless it returns where it
    /// may not. Any other hands its values (none, if it did not return) to
    /// the output bindings of its call, and the caller goes on behind the
    /// call.
    pub open spec fn finish(self, returned: Option<Seq<SpecData>>) -> Result<
        SpecMachine,
        RuntimeError,
    > {
        if self.callers.len() == 0 {
            if returned is Some && !self.may_return {
                Err(RuntimeError::MalformedControlFlow)
            } else {
                Ok(SpecMachine { status: SpecStatus::Finished(returned), ..self })
            }
        } else {
            let caller = self.callers.last();
            let values = match returned {
                Some(values) => values,
                None => Seq::empty(),
            };
            match spec_write_back(self.current.outputs, values, caller.locals, self.globals) {
                Err(error) => Err(error),
                Ok((local, global)) => Ok(
                    SpecMachine {
                        current: caller,
                        callers: self.callers.drop_last(),
                        ..self
                    }.advanced(local, global),
                ),
            }
        }
    }

    /// The step that ends the run in progress: a block is left, a function's
    /// body ends the invocation without values.
    pub open spec fn end(self) -> Result<SpecMachine, RuntimeError> {
        if self.current.blocks.len() > 0 {
            Ok(SpecMachine { current: self.current.left(self.len()), ..self })
        } else {
            self.finish(None)
        }
    }

    /// The step of a `Return`, which only the body of a function may hold.
    pub open spec fn give_back(self, values: Seq<SpecValueKind>) -> Result<
        SpecMachine,
        RuntimeError,
    > {
        if self.current.blocks.len() > 0 {
            Err(RuntimeError::MalformedControlFlow)
        } else {
            match spec_values_of(values, self.current.locals, self.globals) {
                Err(error) => Err(error),
                Ok(values) => self.finish(Some(values)),
            }
        }
    }

    /// The step of a ready machine: it runs the instruction at the cursor. A
    /// cursor at the end of the program ends the run in progress.
    pub open spec fn execute_line(self) -> Result<SpecMachine, RuntimeError> {
        let local = self.current.locals;
        let global = self.globals;
        let cursor = self.current.region().cursor;
        if cursor >= self.len() {
            self.end()
        } else {
            match self.program[cursor as int] {
                SpecInstruction::Function(_, _) => Err(RuntimeError::MalformedControlFlow),
                SpecInstruction::Block(_) => Err(RuntimeError::MalformedControlFlow),
                SpecInstruction::CreateVariable(name, type_) => Ok(
                    self.advanced(local.insert(name, SpecStoredValue::Null(type_)), global),
                ),
                SpecInstruction::SetVariable(name, value) => match spec_set_variable(
                    name,
                    value,
                    local,
                    global,
                ) {
                    Err(error) => Err(error),
                    Ok((local, global)) => Ok(self.advanced(local, global)),
                },
                SpecInstruction::Compare(operator, lvalue, rvalue, avalue) => self.operate(
                    Operator::Relational(operator),
                    lvalue,
                    rvalue,
                    avalue,
                ),
                SpecInstruction::Arithmetic(operator, lvalue, rvalue, avalue) => self.operate(
                    Operator::Arithmetic(operator),
                    lvalue,
                    rvalue,
                    avalue,
                ),
                SpecInstruction::Goto(block) => self.enter_block(block),
                SpecInstruction::GotoIf(block, condition) => self.branch(
                    condition,
                    self.enter_block(block),
                ),
                SpecInstruction::GoBack => Ok(self.go_back()),
                SpecInstruction::GoBackIf(condition) => self.branch(condition, Ok(self.go_back())),
                SpecInstruction::Skip(count) => Ok(
                    SpecMachine {
                        current: self.current.moved(count as nat, self.len()),
                        ..self
                    },
                ),
                SpecInstruction::Call(name, arguments) => self.call(name, arguments),
                SpecInstruction::Return(values) => self.give_back(values),
                SpecInstruction::End => self.end(),
            }
        }
    }

    /// The machine after at most `fuel` steps without an event: it stops
    /// before that where it is not ready any more, because it waits for an
    /// answer or has finished. Where a step fails, the run fails at the
    /// instruction that the cursor was at.
    pub open spec fn run(self, fuel: nat) -> Result<SpecMachine, SpecFault>
        decreases fuel,
    {
        if fuel == 0 || !(self.status is Ready) {
            Ok(self)
        } else {
            match self.step(SpecEvent::Continue) {
                Err(error) => Err(SpecFault { error, index: self.current.region().cursor }),
                Ok(next) => next.run((fuel - 1) as nat),
            }
        }
    }

    /// One step. A ready machine runs an instruction. A waiting machine
    /// takes the answer it waits for, writes it where it belongs and is
    /// ready again, behind the instruction that waited. A finished machine
    /// stays as it is. An event that the machine does not expect is a fault
    /// in the control flow.
    pub open spec fn step(self, event: SpecEvent) -> Result<SpecMachine, RuntimeError> {
        match (self.status, event) {
            (SpecStatus::Ready, SpecEvent::Continue) => self.execute_line(),
            (
                SpecStatus::AwaitingFloat { request, destination },
                SpecEvent::FloatAnswer(answer),
            ) => match spec_complete(
                request.operator,
                destination,
                answer,
                self.current.locals,
                self.globals,
            ) {
                Err(error) => Err(error),
                Ok((local, global)) => Ok(self.advanced(local, global)),
            },
            (
                SpecStatus::AwaitingNative { name, arguments, outputs },
                SpecEvent::NativeReturn(values),
            ) => match spec_write_back(outputs, values, self.current.locals, self.globals) {
                Err(error) => Err(error),
                Ok((local, global)) => Ok(self.advanced(local, global)),
            },
            (SpecStatus::Finished(_), SpecEvent::Continue) => Ok(self),
            _ => Err(RuntimeError::MalformedControlFlow),
        }
    }
}

/// Whether the machine is ready to run the instruction `instruction`.
pub open spec fn about_to_run(machine: SpecMachine, instruction: SpecInstruction) -> bool {
    &&& machine.status is Ready
    &&& machine.current.region().cursor < machine.len()
    &&& machine.program[machine.current.region().cursor as int] == instruction
}

/// A `Skip` changes nothing but the cursor, which passes over the
/// instruction itself and as many more as it says, or stops at the end of
/// the program. `Skip(0)` does what every instruction without an effect of
/// its own on the control flow does: it goes on with the next instruction.
pub proof fn lemma_skip(machine: SpecMachine, count: usize)
    requires
        about_to_run(machine, SpecInstruction::Skip(count)),
    ensures
        machine.step(SpecEvent::Continue) == Ok::<SpecMachine, RuntimeError>(
            SpecMachine { current: machine.current.moved(count as nat, machine.len()), ..machine },
        ),
        machine.step(SpecEvent::Continue)->Ok_0.current.region().cursor == following(
            machine.current.region().cursor,
            count as nat,
            machine.len(),
        ),
        count == 0 ==> machine.step(SpecEvent::Continue) == Ok::<SpecMachine, RuntimeError>(
            machine.advanced(machine.current.locals, machine.globals),
        ),
{
    let next = machine.step(SpecEvent::Continue)->Ok_0;
    assert(next.current.blocks.len() == machine.current.blocks.len());
    assert(next == machine.advanced(machine.current.locals, machine.globals) <== count == 0);
}

/// A `GoBackIf` whose condition is true puts the cursor back at the start
/// of the body that it stands in and leaves everything else as it is. A
/// `GoBackIf` whose condition is false goes on with the next instruction.
/// One whose condition has no truth fails.
pub proof fn lemma_go_back_if(machine: SpecMachine, operand: SpecValueKind)
    requires
        about_to_run(machine, SpecInstruction::GoBackIf(operand)),
    ensures
        match spec_condition(operand, machine.current.locals, machine.globals) {
            Ok(true) => {
                &&& machine.step(SpecEvent::Continue) == Ok::<SpecMachine, RuntimeError>(
                    SpecMachine { current: machine.current.restarted(machine.len()), ..machine },
                )
                &&& machine.step(SpecEvent::Continue)->Ok_0.current.region() == region_at(
                    machine.current.region().entry,
                    machine.len(),
                )
            },
            Ok(false) => machine.step(SpecEvent::Continue) == Ok::<SpecMachine, RuntimeError>(
                machine.advanced(machine.current.locals, machine.globals),
            ),
            Err(error) => machine.step(SpecEvent::Continue) == Err::<SpecMachine, RuntimeError>(
                error,
            ),
        },
{
}

/// A `Goto` is a call: once the block that it enters has ended, the run
/// that entered it goes on behind the `Goto`, with the scopes as the block
/// left them.
pub proof fn lemma_block_returns(machine: SpecMachine)
    requires
        machine.status is Ready,
        machine.current.blocks.len() > 0,
        machine.current.region().cursor >= machine.len() || machine.program[machine.current.region().cursor as int]
            == SpecInstruction::End,
    ensures
        machine.step(SpecEvent::Continue) == Ok::<SpecMachine, RuntimeError>(
            SpecMachine {
                current: SpecFrame {
                    blocks: machine.current.blocks.drop_last(),
                    ..machine.current
                }.moved(0, machine.len()),
                ..machine
            },
        ),
{
}

/// The index that is `skip` instructions beyond the one after `index`, or
/// the end of a program of `len` instructions if that is nearer.
pub fn next_index(index: usize, skip: usize, len: usize) -> (next: usize)
    ensures
        next as nat == following(index as nat, skip as nat, len as nat),
{
    if index < len {
        let room = len - index - 1;
        if skip <= room {
            index + 1 + skip
        } else {
            len
        }
    } else {
        len
    }
}

/// The truth of a condition.
pub fn condition(operand: &ValueKind, local_scope: &Scope, global_scope: &Scope) -> (truth: Result<
    bool,
    RuntimeError,
>)
    ensures
        truth == spec_condition(operand@, local_scope@, global_scope@),
{
    match value_of(operand, local_scope, global_scope) {
        Err(error) => Err(error),
        Ok(Data::Boolean(truth)) => Ok(truth),
        Ok(_) => Err(RuntimeError::TypeMismatch),
    }
}

/// The index of the declaration of the native function `name`.
pub fn get_inbuilt_index(natives: &Vec<InbuiltFunction>, name: &str) -> (index: Option<usize>)
    ensures
        spec_get_inbuilt_index(natives.deep_view(), name@) == match index {
            Some(index) => Some(index as nat),
            None => None,
        },
{
    let ghost all = natives.deep_view();
    let ghost wanted = |native: SpecInbuiltFunction| native.name == name@;
    let mut idx: usize = 0;
    assert(all.take(0) =~= Seq::<SpecInbuiltFunction>::empty());
    while idx < natives.len()
        invariant
            idx <= natives.len(),
            all == natives.deep_view(),
            all.len() == natives.len(),
            wanted == (|native: SpecInbuiltFunction| native.name == name@),
            first_index(all.take(idx as int), wanted) is None,
        decreases natives.len() - idx,
    {
        let found = str_eq(natives[idx].name.as_str(), name);
        proof {
            assert(all[idx as int] == natives[idx as int]@);
            assert(found == wanted(all[idx as int]));
            assert(all.take(idx + 1).drop_last() =~= all.take(idx as int));
            if found {
                lemma_first_index_extends(all, wanted, idx as nat + 1);
            }
        }
        if found {
            return Some(idx);
        }
        idx += 1;
    }
    assert(all.take(idx as int) =~= all);
    None
}

impl Region {
    /// The run through the body that follows the head at `entry`, at its
    /// start.
    pub fn at(entry: usize, len: usize) -> (region: Region)
        ensures
            region@ == region_at(entry as nat, len as nat),
    {
        Region { entry, cursor: next_index(entry, 0, len) }
    }
}

impl Frame {
    /// The run that is in progress.
    pub fn region(&self) -> (region: Region)
        ensures
            region@ == self@.region(),
    {
        let depth = self.blocks.len();
        if depth > 0 {
            assert(self.blocks.deep_view().last() == self.blocks[depth - 1]@);
            self.blocks[depth - 1]
        } else {
            self.body
        }
    }

    /// Puts the cursor of the run in progress at `cursor`.
    fn set_cursor(&mut self, cursor: usize)
        ensures
            final(self)@ == old(self)@.with_cursor(cursor as nat),
    {
        let region = Region { entry: self.region().entry, cursor };
        let depth = self.blocks.len();
        if depth > 0 {
            self.blocks.set(depth - 1, region);
            assert(self.blocks.deep_view() =~= old(self).blocks.deep_view().update(
                depth - 1,
                region@,
            ));
        } else {
            self.body = region;
        }
    }

    /// Passes over the instruction at the cursor and `skip` more.
    fn advance(&mut self, skip: usize, len: usize)
        ensures
            final(self)@ == old(self)@.moved(skip as nat, len as nat),
    {
        let cursor = next_index(self.region().cursor, skip, len);
        self.set_cursor(cursor);
    }

    /// Puts the run in progress back at its start.
    fn restart(&mut self, len: usize)
        ensures
            final(self)@ == old(self)@.restarted(len as nat),
    {
        let cursor = next_index(self.region().entry, 0, len);
        self.set_cursor(cursor);
    }

    /// Enters the block whose head is at `entry`.
    fn enter(&mut self, entry: usize, len: usize)
        ensures
            final(self)@ == old(self)@.entered(entry as nat, len as nat),
    {
        self.blocks.push(Region::at(entry, len));
        assert(self.blocks.deep_view() =~= old(self).blocks.deep_view().push(
            region_at(entry as nat, len as nat),
        ));
    }

    /// Leaves the innermost block.
    fn leave(&mut self, len: usize)
        requires
            old(self).blocks.len() > 0,
        ensures
            final(self)@ == old(self)@.left(len as nat),
    {
        self.blocks.pop();
        assert(self.blocks.deep_view() =~= old(self).blocks.deep_view().drop_last());
        self.advance(0, len);
    }
}

impl<'a> Machine<'a> {
    /// Goes on behind the instruction at the cursor, ready for the next.
    fn advance(self) -> (next: Machine<'a>)
        ensures
            next@ == self@.advanced(self@.current.locals, self@.globals),
    {
        let mut machine = self;
        machine.current.advance(0, machine.program.len());
        machine.status = Status::Ready;
        machine
    }

    /// Runs an operator instruction.
    fn operate(
        self,
        operator: Operator,
        lvalue: &ValueKind,
        rvalue: &ValueKind,
        avalue: &ValueKind,
    ) -> (next: Result<Machine<'a>, RuntimeError>)
        ensures
            self@.operate(operator, lvalue@, rvalue@, avalue@) == match next {
                Ok(machine) => Ok(machine@),
                Err(error) => Err(error),
            },
    {
        let mut machine = self;
        match apply(
            operator,
            lvalue,
            rvalue,
            avalue,
            &mut machine.current.locals,
            &mut machine.globals,
        ) {
            Err(error) => Err(error),
            Ok(Applied::Stored) => Ok(machine.advance()),
            Ok(Applied::Deferred(request)) => match avalue {
                ValueKind::Variable(name) => {
                    machine.status = Status::AwaitingFloat { request, destination: name.clone() };
                    Ok(machine)
                },
                ValueKind::Literal(_) => Err(RuntimeError::InvalidDestination),
            },
        }
    }

    /// Enters the block `block`.
    fn enter_block(self, block: &str) -> (next: Result<Machine<'a>, RuntimeError>)
        ensures
            self@.enter_block(block@) == match next {
                Ok(machine) => Ok(machine@),
                Err(error) => Err(error),
            },
    {
        let mut machine = self;
        let instructions = machine.program.as_slice();
        assert(instructions.deep_view() =~= machine.program.deep_view());
        match get_block_index(instructions, block) {
            None => Err(RuntimeError::UndefinedBlock),
            Some(entry) => {
                machine.current.enter(entry, machine.program.len());
                Ok(machine)
            },
        }
    }

    /// Starts the run in progress again.
    fn go_back(self) -> (next: Machine<'a>)
        ensures
            next@ == self@.go_back(),
    {
        let mut machine = self;
        machine.current.restart(machine.program.len());
        machine
    }

    /// Ends the running invocation with `returned`.
    fn finish(self, returned: Option<Vec<Data>>) -> (next: Result<Machine<'a>, RuntimeError>)
        ensures
            self@.finish(returned.deep_view()) == match next {
                Ok(machine) => Ok(machine@),
                Err(error) => Err(error),
            },
    {
        let mut machine = self;
        let ghost waiting = machine.callers.deep_view();
        match machine.callers.pop() {
            None => if returned.is_some() && !machine.may_return {
                Err(RuntimeError::MalformedControlFlow)
            } else {
                machine.status = Status::Finished(returned);
                Ok(machine)
            },
            Some(caller) => {
                let mut caller = caller;
                assert(machine.callers.deep_view() =~= waiting.drop_last());
                assert(caller@ == waiting.last());
                let values = match returned {
                    Some(values) => values,
                    None => {
                        let none: Vec<Data> = Vec::new();
                        assert(none.deep_view() =~= Seq::<SpecData>::empty());
                        none
                    },
                };
                match write_back(
                    &machine.current.outputs,
                    &values,
                    &mut caller.locals,
                    &mut machine.globals,
                ) {
                    Err(error) => Err(error),
                    Ok(()) => {
                        machine.current = caller;
                        Ok(machine.advance())
                    },
                }
            },
        }
    }

    /// Ends the run in progress.
    fn end(self) -> (next: Result<Machine<'a>, RuntimeError>)
        ensures
            self@.end() == match next {
                Ok(machine) => Ok(machine@),
                Err(error) => Err(error),
            },
    {
        if self.current.blocks.len() > 0 {
            let mut machine = self;
            machine.current.leave(machine.program.len());
            Ok(machine)
        } else {
            self.finish(None)
        }
    }

    /// Runs a `Return`.
    fn give_back(self, values: &Vec<ValueKind>) -> (next: Result<Machine<'a>, RuntimeError>)
        ensures
            self@.give_back(values.deep_view()) == match next {
                Ok(machine) => Ok(machine@),
                Err(error) => Err(error),
            },
    {
        if self.current.blocks.len() > 0 {
            Err(RuntimeError::MalformedControlFlow)
        } else {
            match values_of(values, &self.current.locals, &self.globals) {
                Err(error) => Err(error),
                Ok(values) => self.finish(Some(values)),
            }
        }
    }
}

impl<'a> Machine<'a> {
    /// Runs a call.
    fn call(self, name: &str, arguments: &Vec<ValueKind>) -> (next: Result<
        Machine<'a>,
        RuntimeError,
    >)
        ensures
            self@.call(name@, arguments.deep_view()) == match next {
                Ok(machine) => Ok(machine@),
                Err(error) => Err(error),
            },
    {
        let mut machine = self;
        let program = machine.program;
        let natives = machine.natives;
        let instructions = program.as_slice();
        assert(instructions.deep_view() =~= program.deep_view());
        match get_function_index(instructions, name) {
            Some(entry) => {
                proof {
                    lemma_first_index(
                        program.deep_view(),
                        |instruction: SpecInstruction|
                            super::instruction::heads_function(instruction, name@),
                    );
                    assert(program.deep_view()[entry as int] == program[entry as int]@);
                }
                match &program[entry] {
                    Instruction::Function(_, params) => {
                        match prepare_call(
                            params,
                            arguments,
                            &machine.current.locals,
                            &machine.globals,
                        ) {
                            Err(error) => Err(error),
                            Ok((bound, outputs)) => {
                                let blocks: Vec<Region> = Vec::new();
                                assert(blocks.deep_view() =~= Seq::<SpecRegion>::empty());
                                let mut frame = Frame {
                                    locals: bound,
                                    outputs,
                                    body: Region::at(entry, program.len()),
                                    blocks,
                                };
                                std::mem::swap(&mut frame, &mut machine.current);
                                let ghost waiting = machine.callers.deep_view();
                                machine.callers.push(frame);
                                assert(machine.callers.deep_view() =~= waiting.push(frame@));
                                Ok(machine)
                            },
                        }
                    },
                    _ => Err(RuntimeError::MalformedControlFlow),
                }
            },
            None => match get_inbuilt_index(natives, name) {
                Some(index) => {
                    proof {
                        lemma_first_index(
                            natives.deep_view(),
                            |native: SpecInbuiltFunction| native.name == name@,
                        );
                        assert(natives.deep_view()[index as int] == natives[index as int]@);
                    }
                    match prepare_call(
                        &natives[index].params,
                        arguments,
                        &machine.current.locals,
                        &machine.globals,
                    ) {
                        Err(error) => Err(error),
                        Ok((bound, outputs)) => {
                            machine.status = Status::AwaitingNative {
                                name: name.to_owned(),
                                arguments: bound,
                                outputs,
                            };
                            Ok(machine)
                        },
                    }
                },
                None => Err(RuntimeError::UndefinedFunction),
            },
        }
    }

    /// Runs a conditional instruction: `GotoIf` with the name of a block,
    /// `GoBackIf` without.
    fn branch(self, operand: &ValueKind, block: Option<&String>) -> (next: Result<
        Machine<'a>,
        RuntimeError,
    >)
        ensures
            self@.branch(
                operand@,
                match block {
                    Some(block) => self@.enter_block(block@),
                    None => Ok(self@.go_back()),
                },
            ) == match next {
                Ok(machine) => Ok(machine@),
                Err(error) => Err(error),
            },
    {
        match condition(operand, &self.current.locals, &self.globals) {
            Err(error) => Err(error),
            Ok(true) => match block {
                Some(block) => self.enter_block(block.as_str()),
                None => Ok(self.go_back()),
            },
            Ok(false) => Ok(self.advance()),
        }
    }

    /// Runs the instruction at the cursor.
    fn execute_line(self) -> (next: Result<Machine<'a>, RuntimeError>)
        ensures
            self@.execute_line() == match next {
                Ok(machine) => Ok(machine@),
                Err(error) => Err(error),
            },
    {
        let cursor = self.current.region().cursor;
        if cursor >= self.program.len() {
            return self.end();
        }
        let program = self.program;
        assert(program.deep_view()[cursor as int] == program[cursor as int]@);
        match &program[cursor] {
            Instruction::Function(_, _) => Err(RuntimeError::MalformedControlFlow),
            Instruction::Block(_) => Err(RuntimeError::MalformedControlFlow),
            Instruction::CreateVariable(name, type_) => {
                let mut machine = self;
                create_variable(&mut machine.current.locals, name.clone(), type_.clone());
                Ok(machine.advance())
            },
            Instruction::SetVariable(name, value) => {
                let mut machine = self;
                match set_variable(
                    &mut machine.current.locals,
                    &mut machine.globals,
                    name.as_str(),
                    value.clone(),
                ) {
                    Err(error) => Err(error),
                    Ok(()) => Ok(machine.advance()),
                }
            },
            Instruction::Compare(operator, lvalue, rvalue, avalue) => self.operate(
                Operator::Relational(*operator),
                lvalue,
                rvalue,
                avalue,
            ),
            Instruction::Arithmetic(operator, lvalue, rvalue, avalue) => self.operate(
                Operator::Arithmetic(*operator),
                lvalue,
                rvalue,
                avalue,
            ),
            Instruction::Goto(block) => self.enter_block(block.as_str()),
            Instruction::GotoIf(block, operand) => self.branch(operand, Some(block)),
            Instruction::GoBack => Ok(self.go_back()),
            Instruction::GoBackIf(operand) => self.branch(operand, None),
            Instruction::Skip(count) => {
                let mut machine = self;
                machine.current.advance(*count, program.len());
                Ok(machine)
            },
            Instruction::Call(name, arguments) => self.call(name.as_str(), arguments),
            Instruction::Return(values) => self.give_back(values),
            Instruction::End => self.end(),
        }
    }

    /// Takes one step.
    pub fn step(self, event: Event) -> (next: Result<Machine<'a>, RuntimeError>)
        ensures
            self@.step(event@) == match next {
                Ok(machine) => Ok(machine@),
                Err(error) => Err(error),
            },
    {
        let mut machine = self;
        let mut status = Status::Ready;
        std::mem::swap(&mut status, &mut machine.status);
        match (status, event) {
            (Status::Ready, Event::Continue) => machine.execute_line(),
            (Status::AwaitingFloat { request, destination }, Event::FloatAnswer(answer)) => {
                match complete(
                    request.operator,
                    destination.as_str(),
                    answer,
                    &mut machine.current.locals,
                    &mut machine.globals,
                ) {
                    Err(error) => Err(error),
                    Ok(()) => Ok(machine.advance()),
                }
            },
            (Status::AwaitingNative { name, arguments, outputs }, Event::NativeReturn(values)) => {
                match write_back(
                    &outputs,
                    &values,
                    &mut machine.current.locals,
                    &mut machine.globals,
                ) {
                    Err(error) => Err(error),
                    Ok(()) => Ok(machine.advance()),
                }
            },
            (Status::Finished(values), Event::Continue) => {
                machine.status = Status::Finished(values);
                Ok(machine)
            },
            _ => Err(RuntimeError::MalformedControlFlow),
        }
    }
}

impl<'a> Machine<'a> {
    /// A machine that is about to run the function whose head is at
    /// `function_index`, with `arguments` as its local scope: an empty scope
    /// if there are none.
    pub fn invoke(
        instructions: &'a Vec<Instruction>,
        function_index: usize,
        arguments: Option<Scope>,
        global_scope: Scope,
        inbuilt: &'a Vec<InbuiltFunction>,
    ) -> (machine: Machine<'a>)
        ensures
            machine@ == spec_invoke(
                instructions.deep_view(),
                inbuilt.deep_view(),
                function_index as nat,
                match arguments {
                    Some(scope) => scope@,
                    None => Map::empty(),
                },
                global_scope@,
            ),
    {
        let locals = match arguments {
            Some(scope) => scope,
            None => Scope::new(),
        };
        let outputs: Vec<String> = Vec::new();
        let blocks: Vec<Region> = Vec::new();
        let callers: Vec<Frame> = Vec::new();
        assert(outputs.deep_view() =~= Seq::<Seq<char>>::empty());
        assert(blocks.deep_view() =~= Seq::<SpecRegion>::empty());
        assert(callers.deep_view() =~= Seq::<SpecFrame>::empty());
        Machine {
            program: instructions,
            natives: inbuilt,
            globals: global_scope,
            current: Frame {
                locals,
                outputs,
                body: Region::at(function_index, instructions.len()),
                blocks,
            },
            callers,
            may_return: true,
            status: Status::Ready,
        }
    }

    /// A machine that is about to run the function `main`.
    pub fn start(
        instructions: &'a Vec<Instruction>,
        global_scope: Scope,
        inbuilt: &'a Vec<InbuiltFunction>,
    ) -> (machine: Result<Machine<'a>, RuntimeError>)
        ensures
            spec_start(instructions.deep_view(), inbuilt.deep_view(), global_scope@)
                == match machine {
                Ok(machine) => Ok(machine@),
                Err(error) => Err(error),
            },
    {
        let slice = instructions.as_slice();
        assert(slice.deep_view() =~= instructions.deep_view());
        match get_function_index(slice, "main") {
            None => Err(RuntimeError::UndefinedFunction),
            Some(entry) => {
                let mut machine = Machine::invoke(instructions, entry, None, global_scope, inbuilt);
                machine.may_return = false;
                Ok(machine)
            },
        }
    }

    /// Whether the next instruction can run.
    pub fn is_ready(&self) -> (ready: bool)
        ensures
            ready == (self@.status is Ready),
    {
        matches!(self.status, Status::Ready)
    }

    /// Takes steps without an event until the machine waits for an answer
    /// or has finished, but at most `fuel` steps.
    pub fn run(self, fuel: usize) -> (last: Result<Machine<'a>, Fault>)
        ensures
            self@.run(fuel as nat) == match last {
                Ok(machine) => Ok(machine@),
                Err(fault) => Err(fault@),
            },
    {
        let ghost first = self@;
        let mut machine = self;
        let mut left: usize = fuel;
        while left > 0 && machine.is_ready()
            invariant
                first == self@,
                first.run(fuel as nat) == machine@.run(left as nat),
            decreases left,
        {
            let index = machine.current.region().cursor;
            machine = match machine.step(Event::Continue) {
                Ok(next) => next,
                Err(error) => return Err(Fault { error, index }),
            };
            left -= 1;
        }
        Ok(machine)
    }
}

/// Runs the function whose head is at `function_index` as the outermost
/// invocation of a new machine, for at most `fuel` steps. The machine that
/// comes back has finished, waits for an answer, or is out of fuel and
/// ready to run on.
pub fn run_function<'a>(
    instructions: &'a Vec<Instruction>,
    function_index: usize,
    arguments: Option<Scope>,
    global_scope: Scope,
    inbuilt: &'a Vec<InbuiltFunction>,
    fuel: usize,
) -> (last: Result<Machine<'a>, Fault>)
    ensures
        spec_invoke(
            instructions.deep_view(),
            inbuilt.deep_view(),
            function_index as nat,
            match arguments {
                Some(scope) => scope@,
                None => Map::empty(),
            },
            global_scope@,
        ).run(fuel as nat) == match last {
            Ok(machine) => Ok(machine@),
            Err(fault) => Err(fault@),
        },
{
    Machine::invoke(instructions, function_index, arguments, global_scope, inbuilt).run(fuel)
}

} // verus!
