//! `==` and `<` of numbers: by value, whatever the variant.
use crate::double::Order;
use crate::value::Number;
use core::cmp::Ordering;
use vstd::prelude::*;
use vstd::std_specs::cmp::{PartialEqSpec, PartialOrdSpec};

verus! {

/// The ordering of the standard library that `order` stands for.
pub open spec fn ordering_of(order: Option<Order>) -> Option<Ordering> {
    match order {
        Some(Order::Less) => Some(Ordering::Less),
        Some(Order::Equal) => Some(Ordering::Equal),
        Some(Order::Greater) => Some(Ordering::Greater),
        None => None,
    }
}

impl PartialEq for Number {
    fn eq(&self, other: &Number) -> (r: bool) {
        self.same_value(other)
    }
}

impl vstd::std_specs::cmp::PartialEqSpecImpl for Number {
    open spec fn obeys_eq_spec() -> bool {
        true
    }

    open spec fn eq_spec(&self, other: &Number) -> bool {
        self.order(*other) == Some(Order::Equal)
    }
}

impl PartialOrd for Number {
    fn partial_cmp(&self, other: &Number) -> (r: Option<Ordering>) {
        match self.numeric_order(other) {
            Some(Order::Less) => Some(Ordering::Less),
            Some(Order::Equal) => Some(Ordering::Equal),
            Some(Order::Greater) => Some(Ordering::Greater),
            None => None,
        }
    }
}

impl vstd::std_specs::cmp::PartialOrdSpecImpl for Number {
    open spec fn obeys_partial_cmp_spec() -> bool {
        true
    }

    open spec fn partial_cmp_spec(&self, other: &Number) -> Option<Ordering> {
        ordering_of(self.order(*other))
    }
}

impl Number {
    /// Numbers of different variants are equal when their values are: the
    /// byte 3, the integer 3 and the double 3 are one number.
    pub proof fn lemma_equal_across_variants(v: u8)
        ensures
            Number::Byte(v).eq_spec(&Number::Integer(v as i64)),
            Number::Integer(v as i64).eq_spec(&Number::Byte(v)),
    {
    }

    /// The order of numbers is that of their values: equal to itself unless
    /// a NaN, the same both ways round, and carried along a chain.
    pub proof fn lemma_order_is_by_value(a: Number, b: Number, c: Number)
        ensures
            a.scaled() is Some ==> a.eq_spec(&a),
            a.eq_spec(&b) ==> b.eq_spec(&a),
            a.eq_spec(&b) && b.eq_spec(&c) ==> a.eq_spec(&c),
            a.partial_cmp_spec(&b) == Some(Ordering::Less) <==> b.partial_cmp_spec(&a) == Some(
                Ordering::Greater,
            ),
            a.partial_cmp_spec(&b) == Some(Ordering::Less) && b.partial_cmp_spec(&c) == Some(
                Ordering::Less,
            ) ==> a.partial_cmp_spec(&c) == Some(Ordering::Less),
            a.partial_cmp_spec(&b) == Some(Ordering::Equal) <==> a.eq_spec(&b),
    {
    }
}

} // verus!
