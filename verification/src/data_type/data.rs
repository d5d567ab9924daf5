//! Runtime values and the operators on them.
//!
//! A float is carried as the bit pattern of an IEEE 754 double. Nothing here
//! computes on such a pattern: an operator applied to two numbers of which at
//! least one is a float yields a [`FloatRequest`] for the embedder's float unit.
use super::types::SpecType;
use super::types::Type;
use crate::runtime::operators::ArithmeticOperator;
use crate::runtime::operators::RelationalOperator;
use crate::text::int_order;
use crate::text::str_order;
use crate::text::text_order;
use crate::text::Order;
use vstd::prelude::*;

verus! {

/// A runtime value.
pub enum Data {
    Integer(i64),
    /// The bit pattern of an IEEE 754 double.
    Float(u64),
    Boolean(bool),
    Character(char),
    String(String),
}

/// The mathematical model of a [`Data`].
pub enum SpecData {
    Integer(i64),
    Float(u64),
    Boolean(bool),
    Character(char),
    String(Seq<char>),
}

/// An integer or a float, as an operand of the float unit.
#[derive(Clone, Copy, PartialEq, Eq, Structural)]
pub enum Number {
    Integer(i64),
    /// The bit pattern of an IEEE 754 double.
    Float(u64),
}

/// A binary operator of either family.
#[derive(Clone, Copy, PartialEq, Eq, Structural)]
pub enum Operator {
    Arithmetic(ArithmeticOperator),
    Relational(RelationalOperator),
}

/// A computation for the float unit: `lhs operator rhs`, an integer operand
/// promoted to a float first. The answer to an arithmetic request is a
/// float, the answer to a relational request a boolean.
#[derive(Clone, Copy, PartialEq, Eq, Structural)]
pub struct FloatRequest {
    pub operator: Operator,
    pub lhs: Number,
    pub rhs: Number,
}

/// What applying an operator to two values yields.
pub enum Outcome<T> {
    /// The operator is defined on the operands, with this result.
    Done(T),
    /// The operands are numbers, at least one of them a float: the result is
    /// the float unit's answer to the request.
    Deferred(FloatRequest),
    /// The operator is not defined on the operands.
    Unsupported,
}

impl View for Data {
    type V = SpecData;

    open spec fn view(&self) -> SpecData {
        match self {
            Data::Integer(i) => SpecData::Integer(*i),
            Data::Float(bits) => SpecData::Float(*bits),
            Data::Boolean(b) => SpecData::Boolean(*b),
            Data::Character(c) => SpecData::Character(*c),
            Data::String(s) => SpecData::String(s@),
        }
    }
}

impl DeepView for Data {
    type V = SpecData;

    open spec fn deep_view(&self) -> SpecData {
        self.view()
    }
}

impl<T: DeepView> DeepView for Outcome<T> {
    type V = Outcome<T::V>;

    open spec fn deep_view(&self) -> Outcome<T::V> {
        match self {
            Outcome::Done(value) => Outcome::Done(value.deep_view()),
            Outcome::Deferred(request) => Outcome::Deferred(*request),
            Outcome::Unsupported => Outcome::Unsupported,
        }
    }
}

impl SpecData {
    /// The value as an operand of the float unit, if it is a number.
    pub open spec fn number(self) -> Option<Number> {
        match self {
            SpecData::Integer(i) => Some(Number::Integer(i)),
            SpecData::Float(bits) => Some(Number::Float(bits)),
            _ => None,
        }
    }

    /// Whether a value of this kind may be bound to a parameter of type `type_`.
    pub open spec fn is_type(self, type_: SpecType) -> bool {
        match (self, type_) {
            (_, SpecType::Any) => true,
            (SpecData::Integer(_), SpecType::Integer) => true,
            (SpecData::Float(_), SpecType::Float) => true,
            (SpecData::Boolean(_), SpecType::Boolean) => true,
            (SpecData::Character(_), SpecType::Character) => true,
            (SpecData::String(_), SpecType::String) => true,
            _ => false,
        }
    }

    /// Whether two values are of the same kind.
    pub open spec fn same_type(self, other: SpecData) -> bool {
        match (self, other) {
            (SpecData::Integer(_), SpecData::Integer(_)) => true,
            (SpecData::Float(_), SpecData::Float(_)) => true,
            (SpecData::Boolean(_), SpecData::Boolean(_)) => true,
            (SpecData::Character(_), SpecData::Character(_)) => true,
            (SpecData::String(_), SpecData::String(_)) => true,
            _ => false,
        }
    }
}

/// The request that `operator` on `lhs` and `rhs` makes of the float unit:
/// there is one exactly when both are numbers and at least one is a float.
pub open spec fn float_request(operator: Operator, lhs: SpecData, rhs: SpecData) -> Option<
    FloatRequest,
> {
    match (lhs.number(), rhs.number()) {
        (Some(Number::Integer(_)), Some(Number::Integer(_))) => None,
        (Some(l), Some(r)) => Some(FloatRequest { operator, lhs: l, rhs: r }),
        _ => None,
    }
}

/// The order of two values of the same kind, floats aside: integers by
/// value, `false` before `true`, characters by code point, strings
/// lexicographically.
pub open spec fn order_of(lhs: SpecData, rhs: SpecData) -> Option<Order> {
    match (lhs, rhs) {
        (SpecData::Integer(i), SpecData::Integer(j)) => Some(int_order(i as int, j as int)),
        (SpecData::Boolean(i), SpecData::Boolean(j)) => Some(
            int_order(if i { 1 } else { 0 }, if j { 1 } else { 0 }),
        ),
        (SpecData::Character(i), SpecData::Character(j)) => Some(int_order(i as int, j as int)),
        (SpecData::String(i), SpecData::String(j)) => Some(text_order(i, j)),
        _ => None,
    }
}

/// Whether the relation `operator` holds of two values that stand in `order`.
pub open spec fn holds(operator: RelationalOperator, order: Order) -> bool {
    match operator {
        RelationalOperator::EqualTo => order == Order::Equal,
        RelationalOperator::NotEqualTo => order != Order::Equal,
        RelationalOperator::LessThan => order == Order::Less,
        RelationalOperator::LessThanEqualTo => order != Order::Greater,
        RelationalOperator::GreaterThan => order == Order::Greater,
        RelationalOperator::GreaterThanEqualTo => order != Order::Less,
    }
}

/// The result of a comparison. Values of one kind are compared by their
/// order; two numbers with a float among them are left to the float unit;
/// values of kinds that do not compare are unequal, and no order is defined
/// between them.
pub open spec fn relate(operator: RelationalOperator, lhs: SpecData, rhs: SpecData) -> Outcome<
    bool,
> {
    if let Some(order) = order_of(lhs, rhs) {
        Outcome::Done(holds(operator, order))
    } else if let Some(request) = float_request(Operator::Relational(operator), lhs, rhs) {
        Outcome::Deferred(request)
    } else {
        match operator {
            RelationalOperator::EqualTo => Outcome::Done(false),
            RelationalOperator::NotEqualTo => Outcome::Done(true),
            _ => Outcome::Unsupported,
        }
    }
}

/// The text that shows a value: an integer in decimal, a boolean as `true`
/// or `false`, a character and a string as they are. How a float is shown is
/// for the float unit to say.
pub open spec fn spec_printable_string(data: SpecData) -> Option<Seq<char>> {
    match data {
        SpecData::Integer(i) => Some(crate::text::decimal(i as int)),
        SpecData::Float(_) => None,
        SpecData::Boolean(b) => Some(
            if b {
                "true"@
            } else {
                "false"@
            },
        ),
        SpecData::Character(c) => Some(seq![c]),
        SpecData::String(text) => Some(text),
    }
}

/// The absolute value of an integer.
pub open spec fn magnitude(i: int) -> int {
    if i < 0 {
        -i
    } else {
        i
    }
}

/// The quotient of `i` by a non-zero `j`, rounded toward zero.
pub open spec fn truncated_quotient(i: int, j: int) -> int {
    let quotient = magnitude(i) / magnitude(j);
    if (i < 0) != (j < 0) {
        -quotient
    } else {
        quotient
    }
}

/// The remainder that goes with [`truncated_quotient`]: it has the sign of `i`.
pub open spec fn truncated_remainder(i: int, j: int) -> int {
    let remainder = magnitude(i) % magnitude(j);
    if i < 0 {
        -remainder
    } else {
        remainder
    }
}

/// The integer as a 64-bit integer, if it is in range.
pub open spec fn fit(i: int) -> Option<i64> {
    if i64::MIN <= i <= i64::MAX {
        Some(i as i64)
    } else {
        None
    }
}

/// The result of an arithmetic operator on two integers. It is defined where
/// the divisor of a division or remainder is not zero and the exact sum,
/// difference, product or quotient is a 64-bit integer.
pub open spec fn integer_result(operator: ArithmeticOperator, i: i64, j: i64) -> Option<i64> {
    match operator {
        ArithmeticOperator::Add => fit(i + j),
        ArithmeticOperator::Subtract => fit(i - j),
        ArithmeticOperator::Multiply => fit(i * j),
        ArithmeticOperator::Divide => if j == 0 {
            None
        } else {
            fit(truncated_quotient(i as int, j as int))
        },
        ArithmeticOperator::Remainder => if j == 0 || fit(
            truncated_quotient(i as int, j as int),
        ) is None {
            None
        } else {
            fit(truncated_remainder(i as int, j as int))
        },
    }
}

/// The result of an arithmetic operator. Two integers give an integer where
/// [`integer_result`] is defined; two numbers with a float among them are
/// left to the float unit; two strings are added by concatenation. Nothing
/// else is defined.
pub open spec fn calculate(operator: ArithmeticOperator, lhs: SpecData, rhs: SpecData) -> Outcome<
    SpecData,
> {
    match (lhs, rhs) {
        (SpecData::Integer(i), SpecData::Integer(j)) => match integer_result(operator, i, j) {
            Some(result) => Outcome::Done(SpecData::Integer(result)),
            None => Outcome::Unsupported,
        },
        (SpecData::String(i), SpecData::String(j)) => if operator == ArithmeticOperator::Add {
            Outcome::Done(SpecData::String(i + j))
        } else {
            Outcome::Unsupported
        },
        _ => match float_request(Operator::Arithmetic(operator), lhs, rhs) {
            Some(request) => Outcome::Deferred(request),
            None => Outcome::Unsupported,
        },
    }
}

/// Addition of numbers does not depend on the order of the operands: two
/// integers give the same result either way, and where a float is among
/// them the float unit is asked for the same sum with the operands swapped.
pub proof fn lemma_add_commutes(lhs: SpecData, rhs: SpecData)
    requires
        lhs.number() is Some,
        rhs.number() is Some,
    ensures
        lhs is Integer && rhs is Integer ==> calculate(ArithmeticOperator::Add, lhs, rhs)
            == calculate(ArithmeticOperator::Add, rhs, lhs),
        lhs is Float || rhs is Float ==> {
            &&& calculate(ArithmeticOperator::Add, lhs, rhs) == Outcome::<SpecData>::Deferred(
                FloatRequest {
                    operator: Operator::Arithmetic(ArithmeticOperator::Add),
                    lhs: lhs.number()->0,
                    rhs: rhs.number()->0,
                },
            )
            &&& calculate(ArithmeticOperator::Add, rhs, lhs) == Outcome::<SpecData>::Deferred(
                FloatRequest {
                    operator: Operator::Arithmetic(ArithmeticOperator::Add),
                    lhs: rhs.number()->0,
                    rhs: lhs.number()->0,
                },
            )
        },
{
}

/// Every value but a float is equal to itself. Whether a float is equal to
/// itself is the float unit's to say.
pub proof fn lemma_equal_to_reflexive(value: SpecData)
    ensures
        !(value is Float) ==> relate(RelationalOperator::EqualTo, value, value) == Outcome::Done(
            true,
        ),
        value is Float ==> relate(RelationalOperator::EqualTo, value, value)
            == Outcome::<bool>::Deferred(
            FloatRequest {
                operator: Operator::Relational(RelationalOperator::EqualTo),
                lhs: value.number()->0,
                rhs: value.number()->0,
            },
        ),
{
    if let SpecData::String(text) = value {
        crate::text::lemma_text_order_equal(text, text);
    }
}

impl Clone for Data {
    fn clone(&self) -> (copy: Self)
        ensures
            copy == *self,
    {
        match self {
            Data::Integer(i) => Data::Integer(*i),
            Data::Float(bits) => Data::Float(*bits),
            Data::Boolean(b) => Data::Boolean(*b),
            Data::Character(c) => Data::Character(*c),
            Data::String(s) => Data::String(s.clone()),
        }
    }
}

/// The order of two booleans, `false` before `true`.
fn bool_order(a: bool, b: bool) -> (order: Order)
    ensures
        order == int_order(if a { 1 } else { 0 }, if b { 1 } else { 0 }),
{
    if a == b {
        Order::Equal
    } else if b {
        Order::Less
    } else {
        Order::Greater
    }
}

/// The order of two integers.
fn integer_order(a: i64, b: i64) -> (order: Order)
    ensures
        order == int_order(a as int, b as int),
{
    if a < b {
        Order::Less
    } else if a == b {
        Order::Equal
    } else {
        Order::Greater
    }
}

/// Whether the relation `operator` holds of two values that stand in `order`.
pub fn decide(operator: RelationalOperator, order: Order) -> (truth: bool)
    ensures
        truth == holds(operator, order),
{
    match operator {
        RelationalOperator::EqualTo => order == Order::Equal,
        RelationalOperator::NotEqualTo => order != Order::Equal,
        RelationalOperator::LessThan => order == Order::Less,
        RelationalOperator::LessThanEqualTo => order != Order::Greater,
        RelationalOperator::GreaterThan => order == Order::Greater,
        RelationalOperator::GreaterThanEqualTo => order != Order::Less,
    }
}

/// Division of 64-bit integers, rounded toward zero, where it is defined.
fn checked_quotient(i: i64, j: i64) -> (quotient: Option<i64>)
    ensures
        quotient == integer_result(ArithmeticOperator::Divide, i, j),
{
    i.checked_div(j)
}

/// The remainder of a division rounded toward zero, where the division is
/// defined.
fn checked_remainder(i: i64, j: i64) -> (remainder: Option<i64>)
    ensures
        remainder == integer_result(ArithmeticOperator::Remainder, i, j),
{
    proof {
        if j != 0 {
            lemma_quotient_fits(i, j);
        }
    }
    i.checked_rem(j)
}

/// The quotient of two 64-bit integers is a 64-bit integer, except that of
/// the least integer by minus one.
proof fn lemma_quotient_fits(i: i64, j: i64)
    requires
        j != 0,
    ensures
        fit(truncated_quotient(i as int, j as int)) is None <==> (i == i64::MIN && j == -1),
{
    let a = magnitude(i as int);
    let b = magnitude(j as int);
    assert(0 <= a / b <= a) by (nonlinear_arith)
        requires
            0 <= a,
            1 <= b,
    ;
    assert(b >= 2 && a > 0 ==> a / b < a) by (nonlinear_arith)
        requires
            0 <= a,
            1 <= b,
    ;
    assert(b == 1 ==> a / b == a) by (nonlinear_arith);
}

impl Data {
    /// The value as an operand of the float unit, if it is a number.
    pub fn number(&self) -> (number: Option<Number>)
        ensures
            number == self@.number(),
    {
        match self {
            Data::Integer(i) => Some(Number::Integer(*i)),
            Data::Float(bits) => Some(Number::Float(*bits)),
            _ => None,
        }
    }

    /// Whether the value may be bound to a parameter of type `type_`.
    pub fn is_type(&self, type_: Type) -> (matches: bool)
        ensures
            matches == self@.is_type(type_@),
    {
        match (self, type_) {
            (_, Type::Any) => true,
            (Data::Integer(_), Type::Integer) => true,
            (Data::Float(_), Type::Float) => true,
            (Data::Boolean(_), Type::Boolean) => true,
            (Data::Character(_), Type::Character) => true,
            (Data::String(_), Type::String) => true,
            _ => false,
        }
    }

    /// Whether two values are of the same kind.
    pub fn same_type(&self, other: &Self) -> (same: bool)
        ensures
            same == self@.same_type(other@),
    {
        match (self, other) {
            (Data::Integer(_), Data::Integer(_)) => true,
            (Data::Float(_), Data::Float(_)) => true,
            (Data::Boolean(_), Data::Boolean(_)) => true,
            (Data::Character(_), Data::Character(_)) => true,
            (Data::String(_), Data::String(_)) => true,
            _ => false,
        }
    }

    /// Compares two values by `operator`.
    pub fn relate(&self, operator: RelationalOperator, other: &Self) -> (outcome: Outcome<bool>)
        ensures
            outcome == relate(operator, self@, other@),
    {
        match (self, other) {
            (Data::Integer(i), Data::Integer(j)) => Outcome::Done(
                decide(operator, integer_order(*i, *j)),
            ),
            (Data::Boolean(i), Data::Boolean(j)) => Outcome::Done(
                decide(operator, bool_order(*i, *j)),
            ),
            (Data::Character(i), Data::Character(j)) => Outcome::Done(
                decide(operator, crate::text::char_order(*i, *j)),
            ),
            (Data::String(i), Data::String(j)) => Outcome::Done(
                decide(operator, str_order(i.as_str(), j.as_str())),
            ),
            _ => match (self.number(), other.number()) {
                (Some(lhs), Some(rhs)) => Outcome::Deferred(
                    FloatRequest { operator: Operator::Relational(operator), lhs, rhs },
                ),
                _ => match operator {
                    RelationalOperator::EqualTo => Outcome::Done(false),
                    RelationalOperator::NotEqualTo => Outcome::Done(true),
                    _ => Outcome::Unsupported,
                },
            },
        }
    }

    /// Applies the arithmetic `operator` to two values.
    pub fn calculate(&self, operator: ArithmeticOperator, other: &Self) -> (outcome: Outcome<Data>)
        ensures
            outcome.deep_view() == calculate(operator, self@, other@),
    {
        match (self, other) {
            (Data::Integer(i), Data::Integer(j)) => {
                let result = match operator {
                    ArithmeticOperator::Add => i.checked_add(*j),
                    ArithmeticOperator::Subtract => i.checked_sub(*j),
                    ArithmeticOperator::Multiply => i.checked_mul(*j),
                    ArithmeticOperator::Divide => checked_quotient(*i, *j),
                    ArithmeticOperator::Remainder => checked_remainder(*i, *j),
                };
                match result {
                    Some(value) => Outcome::Done(Data::Integer(value)),
                    None => Outcome::Unsupported,
                }
            },
            (Data::String(i), Data::String(j)) => match operator {
                ArithmeticOperator::Add => Outcome::Done(
                    Data::String(i.clone().concat(j.as_str())),
                ),
                _ => Outcome::Unsupported,
            },
            _ => match (self.number(), other.number()) {
                (Some(lhs), Some(rhs)) => Outcome::Deferred(
                    FloatRequest { operator: Operator::Arithmetic(operator), lhs, rhs },
                ),
                _ => Outcome::Unsupported,
            },
        }
    }

    /// The text that shows the value, unless it is a float.
    pub fn printable_string(&self) -> (text: Option<String>)
        ensures
            spec_printable_string(self@) == match text {
                Some(text) => Some(text@),
                None => None,
            },
    {
        match self {
            Data::Integer(i) => Some(crate::text::decimal_string(*i)),
            Data::Float(_) => None,
            Data::Boolean(b) => Some(
                if *b {
                    "true".to_owned()
                } else {
                    "false".to_owned()
                },
            ),
            Data::Character(c) => {
                let mut one: Vec<char> = Vec::new();
                one.push(*c);
                let text = crate::text::string_of(&one, 0, 1);
                assert(text@ =~= seq![*c]);
                Some(text)
            },
            Data::String(text) => Some(text.clone()),
        }
    }

    /// Whether the two values are equal.
    pub fn equal_to(&self, other: &Self) -> (outcome: Outcome<bool>)
        ensures
            outcome == relate(RelationalOperator::EqualTo, self@, other@),
    {
        self.relate(RelationalOperator::EqualTo, other)
    }

    /// Whether the two values are not equal.
    pub fn not_equal_to(&self, other: &Self) -> (outcome: Outcome<bool>)
        ensures
            outcome == relate(RelationalOperator::NotEqualTo, self@, other@),
    {
        self.relate(RelationalOperator::NotEqualTo, other)
    }

    /// Whether the value comes before `other`.
    pub fn less_than(&self, other: &Self) -> (outcome: Outcome<bool>)
        ensures
            outcome == relate(RelationalOperator::LessThan, self@, other@),
    {
        self.relate(RelationalOperator::LessThan, other)
    }

    /// Whether the value does not come after `other`.
    pub fn less_than_equal_to(&self, other: &Self) -> (outcome: Outcome<bool>)
        ensures
            outcome == relate(RelationalOperator::LessThanEqualTo, self@, other@),
    {
        self.relate(RelationalOperator::LessThanEqualTo, other)
    }

    /// Whether the value comes after `other`.
    pub fn greater_than(&self, other: &Self) -> (outcome: Outcome<bool>)
        ensures
            outcome == relate(RelationalOperator::GreaterThan, self@, other@),
    {
        self.relate(RelationalOperator::GreaterThan, other)
    }

    /// Whether the value does not come before `other`.
    pub fn greater_than_equal_to(&self, other: &Self) -> (outcome: Outcome<bool>)
        ensures
            outcome == relate(RelationalOperator::GreaterThanEqualTo, self@, other@),
    {
        self.relate(RelationalOperator::GreaterThanEqualTo, other)
    }

    /// The sum of two numbers, or two strings joined.
    pub fn add(&self, other: &Self) -> (outcome: Outcome<Data>)
        ensures
            outcome.deep_view() == calculate(ArithmeticOperator::Add, self@, other@),
    {
        self.calculate(ArithmeticOperator::Add, other)
    }

    /// The difference of two numbers.
    pub fn subtract(&self, other: &Self) -> (outcome: Outcome<Data>)
        ensures
            outcome.deep_view() == calculate(ArithmeticOperator::Subtract, self@, other@),
    {
        self.calculate(ArithmeticOperator::Subtract, other)
    }

    /// The product of two numbers.
    pub fn multiply(&self, other: &Self) -> (outcome: Outcome<Data>)
        ensures
            outcome.deep_view() == calculate(ArithmeticOperator::Multiply, self@, other@),
    {
        self.calculate(ArithmeticOperator::Multiply, other)
    }

    /// The quotient of two numbers; that of two integers is rounded toward zero.
    pub fn divide(&self, other: &Self) -> (outcome: Outcome<Data>)
        ensures
            outcome.deep_view() == calculate(ArithmeticOperator::Divide, self@, other@),
    {
        self.calculate(ArithmeticOperator::Divide, other)
    }

    /// The remainder of the division of two numbers; that of two integers has
    /// the sign of the dividend.
    pub fn remainder(&self, other: &Self) -> (outcome: Outcome<Data>)
        ensures
            outcome.deep_view() == calculate(ArithmeticOperator::Remainder, self@, other@),
    {
        self.calculate(ArithmeticOperator::Remainder, other)
    }
}

} // verus!
