//! Script numbers and script values as the engine holds them.
//!
//! A script number is a double. The engine never computes with one: the host
//! does the arithmetic and hands over the outcome. What the engine keeps of a
//! number is its bit pattern, to hand back unchanged, and its two decimal
//! renderings, to write into log lines.

use vstd::prelude::*;
use vstd::string::*;
use crate::text::{decimal, integer_to_string};

verus! {

/// The bit pattern of positive zero.
pub const ZERO_BITS: u64 = 0;

/// The bit pattern of negative zero.
pub const NEGATIVE_ZERO_BITS: u64 = 0x8000_0000_0000_0000;

/// The bit pattern of the double 1.
pub const ONE_BITS: u64 = 0x3FF0_0000_0000_0000;

/// One script number.
#[derive(Debug)]
pub struct Number {
    /// The IEEE-754 binary64 bit pattern.
    pub bits: u64,
    /// The number with exactly two decimals, as in `12.50`.
    pub fixed: String,
    /// The number in its shortest default form, as in `12.5`.
    pub plain: String,
}

/// The mathematical content of a [`Number`].
pub struct NumberView {
    pub bits: u64,
    pub fixed: Seq<char>,
    pub plain: Seq<char>,
}

impl View for Number {
    type V = NumberView;

    open spec fn view(&self) -> NumberView {
        NumberView { bits: self.bits, fixed: self.fixed@, plain: self.plain@ }
    }
}

impl NumberView {
    /// Positive zero and how it prints.
    pub open spec fn zero() -> NumberView {
        NumberView { bits: ZERO_BITS, fixed: "0.00"@, plain: "0"@ }
    }

    /// The double 1 and how it prints.
    pub open spec fn one() -> NumberView {
        NumberView { bits: ONE_BITS, fixed: "1.00"@, plain: "1"@ }
    }

    /// Whether the number compares equal to zero: both signed zeros do, and
    /// nothing else does.
    pub open spec fn is_zero(self) -> bool {
        self.bits == ZERO_BITS || self.bits == NEGATIVE_ZERO_BITS
    }
}

/// The view of an optional number.
pub open spec fn optional_number(n: Option<Number>) -> Option<NumberView> {
    match n {
        Some(v) => Some(v@),
        None => None,
    }
}

/// An optional number, with positive zero in place of a missing one.
pub open spec fn or_zero(n: Option<NumberView>) -> NumberView {
    match n {
        Some(v) => v,
        None => NumberView::zero(),
    }
}

impl Clone for Number {
    fn clone(&self) -> (r: Self)
        ensures
            r == *self,
    {
        Number { bits: self.bits, fixed: self.fixed.clone(), plain: self.plain.clone() }
    }
}

impl Number {
    /// A number from its bit pattern and its two renderings.
    pub fn new(bits: u64, fixed: String, plain: String) -> (r: Number)
        ensures
            r@ == (NumberView { bits, fixed: fixed@, plain: plain@ }),
    {
        Number { bits, fixed, plain }
    }

    /// Positive zero.
    pub fn zero() -> (r: Number)
        ensures
            r@ == NumberView::zero(),
    {
        Number { bits: ZERO_BITS, fixed: String::from_str("0.00"), plain: String::from_str("0") }
    }

    /// The double 1.
    pub fn one() -> (r: Number)
        ensures
            r@ == NumberView::one(),
    {
        Number { bits: ONE_BITS, fixed: String::from_str("1.00"), plain: String::from_str("1") }
    }

    /// Whether the number compares equal to zero.
    pub fn is_zero(&self) -> (r: bool)
        ensures
            r == self@.is_zero(),
    {
        self.bits == ZERO_BITS || self.bits == NEGATIVE_ZERO_BITS
    }

    /// The number itself, or positive zero where there is none.
    pub fn or_zero(n: Option<Number>) -> (r: Number)
        ensures
            r@ == or_zero(optional_number(n)),
    {
        match n {
            Some(v) => v,
            None => Number::zero(),
        }
    }
}

/// A value that a script hands to a builtin which prints it.
#[derive(Debug)]
pub enum ScriptValue {
    /// The absent value.
    Nil,
    /// A truth value.
    Boolean(bool),
    /// A whole number.
    Integer(i64),
    /// A number with a fraction.
    Number(Number),
    /// A string; one that is not valid text arrives empty.
    Text(String),
    /// Anything else, by the description its host gives of it.
    Other(String),
}

/// The mathematical content of a [`ScriptValue`].
pub enum ScriptValueView {
    Nil,
    Boolean(bool),
    Integer(i64),
    Number(NumberView),
    Text(Seq<char>),
    Other(Seq<char>),
}

impl View for ScriptValue {
    type V = ScriptValueView;

    open spec fn view(&self) -> ScriptValueView {
        match self {
            ScriptValue::Nil => ScriptValueView::Nil,
            ScriptValue::Boolean(b) => ScriptValueView::Boolean(*b),
            ScriptValue::Integer(i) => ScriptValueView::Integer(*i),
            ScriptValue::Number(n) => ScriptValueView::Number(n@),
            ScriptValue::Text(s) => ScriptValueView::Text(s@),
            ScriptValue::Other(s) => ScriptValueView::Other(s@),
        }
    }
}

impl ScriptValueView {
    /// How a value prints: a string as it is, a number in its default form,
    /// a truth value as `true` or `false`, the absent value as `nil`.
    pub open spec fn text(self) -> Seq<char> {
        match self {
            ScriptValueView::Nil => "nil"@,
            ScriptValueView::Boolean(b) => if b {
                "true"@
            } else {
                "false"@
            },
            ScriptValueView::Integer(i) => decimal(i as int),
            ScriptValueView::Number(n) => n.plain,
            ScriptValueView::Text(s) => s,
            ScriptValueView::Other(s) => s,
        }
    }
}

/// The view of an optional value.
pub open spec fn optional_value(v: Option<&ScriptValue>) -> Option<ScriptValueView> {
    match v {
        Some(x) => Some(x@),
        None => None,
    }
}

/// The views of a sequence of values.
pub open spec fn value_views(values: Seq<ScriptValue>) -> Seq<ScriptValueView> {
    Seq::new(values.len(), |i: int| values[i]@)
}

/// The printed forms of a sequence of values.
pub open spec fn value_texts(values: Seq<ScriptValueView>) -> Seq<Seq<char>> {
    Seq::new(values.len(), |i: int| values[i].text())
}

impl ScriptValue {
    /// The printed form of the value.
    pub fn to_text(&self) -> (r: String)
        ensures
            r@ == self@.text(),
    {
        match self {
            ScriptValue::Nil => String::from_str("nil"),
            ScriptValue::Boolean(b) => if *b {
                String::from_str("true")
            } else {
                String::from_str("false")
            },
            ScriptValue::Integer(i) => integer_to_string(*i),
            ScriptValue::Number(n) => n.plain.clone(),
            ScriptValue::Text(s) => s.clone(),
            ScriptValue::Other(s) => s.clone(),
        }
    }
}

} // verus!
