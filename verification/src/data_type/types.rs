//! Declared types of variables and parameters.
use crate::text::str_eq;
use vstd::prelude::*;

verus! {

/// The type a variable or parameter is declared with.
pub enum Type {
    /// Matches a value of every kind; meant for parameters of native functions.
    Any,
    Integer,
    Float,
    Boolean,
    Character,
    String,
    /// A nominal type known only by its name.
    Struct(String),
}

/// The mathematical model of a [`Type`].
pub enum SpecType {
    Any,
    Integer,
    Float,
    Boolean,
    Character,
    String,
    Struct(Seq<char>),
}

impl View for Type {
    type V = SpecType;

    open spec fn view(&self) -> SpecType {
        match self {
            Type::Any => SpecType::Any,
            Type::Integer => SpecType::Integer,
            Type::Float => SpecType::Float,
            Type::Boolean => SpecType::Boolean,
            Type::Character => SpecType::Character,
            Type::String => SpecType::String,
            Type::Struct(name) => SpecType::Struct(name@),
        }
    }
}

impl DeepView for Type {
    type V = SpecType;

    open spec fn deep_view(&self) -> SpecType {
        self.view()
    }
}

/// The type that a type name written in a program denotes. Every name that
/// is not one of the six built-in names denotes the nominal type of that name.
pub open spec fn type_named(name: Seq<char>) -> SpecType {
    if name == "any"@ {
        SpecType::Any
    } else if name == "int"@ {
        SpecType::Integer
    } else if name == "float"@ {
        SpecType::Float
    } else if name == "bool"@ {
        SpecType::Boolean
    } else if name == "char"@ {
        SpecType::Character
    } else if name == "String"@ {
        SpecType::String
    } else {
        SpecType::Struct(name)
    }
}

impl Type {
    /// The type that `name` denotes.
    pub fn from_name(name: &str) -> (type_: Type)
        ensures
            type_@ == type_named(name@),
    {
        if str_eq(name, "any") {
            Type::Any
        } else if str_eq(name, "int") {
            Type::Integer
        } else if str_eq(name, "float") {
            Type::Float
        } else if str_eq(name, "bool") {
            Type::Boolean
        } else if str_eq(name, "char") {
            Type::Character
        } else if str_eq(name, "String") {
            Type::String
        } else {
            Type::Struct(name.to_owned())
        }
    }

    /// Whether two types are the same type.
    pub fn same(&self, other: &Type) -> (same: bool)
        ensures
            same == (self@ == other@),
    {
        match (self, other) {
            (Type::Any, Type::Any) => true,
            (Type::Integer, Type::Integer) => true,
            (Type::Float, Type::Float) => true,
            (Type::Boolean, Type::Boolean) => true,
            (Type::Character, Type::Character) => true,
            (Type::String, Type::String) => true,
            (Type::Struct(a), Type::Struct(b)) => str_eq(a.as_str(), b.as_str()),
            _ => false,
        }
    }
}

impl Clone for Type {
    fn clone(&self) -> (copy: Self)
        ensures
            copy == *self,
    {
        match self {
            Type::Any => Type::Any,
            Type::Integer => Type::Integer,
            Type::Float => Type::Float,
            Type::Boolean => Type::Boolean,
            Type::Character => Type::Character,
            Type::String => Type::String,
            Type::Struct(name) => Type::Struct(name.clone()),
        }
    }
}

impl From<String> for Type {
    fn from(value: String) -> (type_: Type) {
        match Type::from_name(value.as_str()) {
            Type::Struct(_) => Type::Struct(value),
            built_in => built_in,
        }
    }
}

impl vstd::std_specs::convert::FromSpecImpl<String> for Type {
    open spec fn obeys_from_spec() -> bool {
        true
    }

    open spec fn from_spec(value: String) -> Type {
        match type_named(value@) {
            SpecType::Any => Type::Any,
            SpecType::Integer => Type::Integer,
            SpecType::Float => Type::Float,
            SpecType::Boolean => Type::Boolean,
            SpecType::Character => Type::Character,
            SpecType::String => Type::String,
            SpecType::Struct(_) => Type::Struct(value),
        }
    }
}

} // verus!
