//! The value model: declared types, runtime values, stored slots and operands.
use vstd::prelude::*;

pub mod data;
pub mod registers;
pub mod types;

pub use data::Data;
pub use data::FloatRequest;
pub use data::Number;
pub use data::Operator;
pub use data::Outcome;
pub use data::SpecData;
pub use registers::Registers;
pub use types::SpecType;
pub use types::Type;

verus! {

/// What a variable holds: nothing yet, or a value.
pub enum StoredValue {
    /// Declared with this type and not assigned yet.
    Null(Type),
    Value(Data),
}

/// The mathematical model of a [`StoredValue`].
pub enum SpecStoredValue {
    Null(SpecType),
    Value(SpecData),
}

/// An operand of an instruction: a literal, or a variable to look up when
/// the instruction runs.
pub enum ValueKind {
    Literal(Data),
    Variable(String),
}

/// The mathematical model of a [`ValueKind`].
pub enum SpecValueKind {
    Literal(SpecData),
    Variable(Seq<char>),
}

impl View for StoredValue {
    type V = SpecStoredValue;

    open spec fn view(&self) -> SpecStoredValue {
        match self {
            StoredValue::Null(type_) => SpecStoredValue::Null(type_@),
            StoredValue::Value(data) => SpecStoredValue::Value(data@),
        }
    }
}

impl DeepView for StoredValue {
    type V = SpecStoredValue;

    open spec fn deep_view(&self) -> SpecStoredValue {
        self.view()
    }
}

impl View for ValueKind {
    type V = SpecValueKind;

    open spec fn view(&self) -> SpecValueKind {
        match self {
            ValueKind::Literal(data) => SpecValueKind::Literal(data@),
            ValueKind::Variable(name) => SpecValueKind::Variable(name@),
        }
    }
}

impl DeepView for ValueKind {
    type V = SpecValueKind;

    open spec fn deep_view(&self) -> SpecValueKind {
        self.view()
    }
}

impl Clone for StoredValue {
    fn clone(&self) -> (copy: Self)
        ensures
            copy == *self,
    {
        match self {
            StoredValue::Null(type_) => StoredValue::Null(type_.clone()),
            StoredValue::Value(data) => StoredValue::Value(data.clone()),
        }
    }
}

impl Clone for ValueKind {
    fn clone(&self) -> (copy: Self)
        ensures
            copy == *self,
    {
        match self {
            ValueKind::Literal(data) => ValueKind::Literal(data.clone()),
            ValueKind::Variable(name) => ValueKind::Variable(name.clone()),
        }
    }
}

} // verus!
