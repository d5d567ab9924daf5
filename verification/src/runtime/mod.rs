//! The execution engine.
pub mod arithmetic;
pub mod comparision;
pub mod error;
pub mod function;
pub mod instruction;
pub mod machine;
pub mod operators;
pub mod scope;
pub mod variable;

pub use operators::ArithmeticOperator;
pub use operators::BitwiseOperator;
pub use operators::LogicalOperator;
pub use operators::RelationalOperator;
pub use scope::Scope;
pub use scope::SpecScope;
pub use error::Fault;
pub use error::RuntimeError;
pub use instruction::get_block_index;
pub use instruction::get_function_index;
pub use instruction::Instruction;
pub use instruction::SpecInstruction;
pub use instruction::SpecProgram;
pub use machine::Event;
pub use machine::InbuiltFunction;
pub use machine::Machine;
pub use machine::Status;
