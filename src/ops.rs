//! Operators on typed expressions. Each builds one node over its operands; a host
//! value on the right is lifted to a literal, and borrowed operands are copied.
//!
//! The `*SpecImpl` companions declare no spec result (`obeys_*_spec` is false): an
//! `Expr` is not determined by its view, so the postcondition of each operator
//! states the tree it builds instead.

use vstd::prelude::*;

use crate::expr::{binary, binary_view, copy_expr, BinOp, ErasedExpr, ExprView};
use crate::typed::{Expr, Literal};
use crate::types::{Float, V2, V3, V4};

verus! {

/// Numeric shader types: `+ - * /` and unary `-`.
pub trait Arithmetic: Literal {}

/// Scalars that a numeric vector can be combined with.
pub trait ArithmeticScalar: Literal {}

/// Floating-point shader types: `%`.
pub trait FloatArithmetic: Literal {}

/// The scalar that a floating-point vector can be combined with by `%`.
pub trait FloatScalar: Literal {}

/// Boolean shader types: `| & ^` and `!`.
pub trait Logical: Literal {}

/// The scalar that a boolean vector can be combined with.
pub trait LogicalScalar: Literal {}

/// Integer shader types: `<<` and `>>`.
pub trait Integral: Literal {}

impl Arithmetic for i32 {}

impl Arithmetic for u32 {}

impl Arithmetic for Float {}

impl Arithmetic for V2<i32> {}

impl Arithmetic for V2<u32> {}

impl Arithmetic for V2<Float> {}

impl Arithmetic for V3<i32> {}

impl Arithmetic for V3<u32> {}

impl Arithmetic for V3<Float> {}

impl Arithmetic for V4<i32> {}

impl Arithmetic for V4<u32> {}

impl Arithmetic for V4<Float> {}

impl ArithmeticScalar for i32 {}

impl ArithmeticScalar for u32 {}

impl ArithmeticScalar for Float {}

impl FloatArithmetic for Float {}

impl FloatArithmetic for V2<Float> {}

impl FloatArithmetic for V3<Float> {}

impl FloatArithmetic for V4<Float> {}

impl FloatScalar for Float {}

impl Logical for bool {}

impl Logical for V2<bool> {}

impl Logical for V3<bool> {}

impl Logical for V4<bool> {}

impl LogicalScalar for bool {}

impl Integral for i32 {}

impl Integral for u32 {}

impl Integral for V2<i32> {}

impl Integral for V2<u32> {}

impl Integral for V3<i32> {}

impl Integral for V3<u32> {}

impl Integral for V4<i32> {}

impl Integral for V4<u32> {}

impl<T: Arithmetic> std::ops::Add<Expr<T>> for Expr<T> {
    type Output = Expr<T>;

    fn add(self, rhs: Expr<T>) -> (r: Expr<T>)
        ensures
            r@ == binary_view(BinOp::Add, self@, rhs@),
    {
        Expr::new(binary(BinOp::Add, self.into_erased(), rhs.into_erased()))
    }
}

impl<T: Arithmetic> vstd::std_specs::ops::AddSpecImpl<Expr<T>> for Expr<T> {
    open spec fn obeys_add_spec() -> bool {
        false
    }

    open spec fn add_req(self, rhs: Expr<T>) -> bool {
        true
    }

    open spec fn add_spec(self, rhs: Expr<T>) -> Expr<T> {
        arbitrary()
    }
}

impl<'a, T: Arithmetic> std::ops::Add<&'a Expr<T>> for Expr<T> {
    type Output = Expr<T>;

    fn add(self, rhs: &'a Expr<T>) -> (r: Expr<T>)
        ensures
            r@ == binary_view(BinOp::Add, self@, (*rhs)@),
    {
        Expr::new(binary(BinOp::Add, self.into_erased(), copy_expr(rhs.erased())))
    }
}

impl<'a, T: Arithmetic> vstd::std_specs::ops::AddSpecImpl<&'a Expr<T>> for Expr<T> {
    open spec fn obeys_add_spec() -> bool {
        false
    }

    open spec fn add_req(self, rhs: &'a Expr<T>) -> bool {
        true
    }

    open spec fn add_spec(self, rhs: &'a Expr<T>) -> Expr<T> {
        arbitrary()
    }
}

impl<'a, T: Arithmetic> std::ops::Add<Expr<T>> for &'a Expr<T> {
    type Output = Expr<T>;

    fn add(self, rhs: Expr<T>) -> (r: Expr<T>)
        ensures
            r@ == binary_view(BinOp::Add, (*self)@, rhs@),
    {
        Expr::new(binary(BinOp::Add, copy_expr(self.erased()), rhs.into_erased()))
    }
}

impl<'a, T: Arithmetic> vstd::std_specs::ops::AddSpecImpl<Expr<T>> for &'a Expr<T> {
    open spec fn obeys_add_spec() -> bool {
        false
    }

    open spec fn add_req(self, rhs: Expr<T>) -> bool {
        true
    }

    open spec fn add_spec(self, rhs: Expr<T>) -> Expr<T> {
        arbitrary()
    }
}

impl<'a, T: Arithmetic> std::ops::Add<&'a Expr<T>> for &'a Expr<T> {
    type Output = Expr<T>;

    fn add(self, rhs: &'a Expr<T>) -> (r: Expr<T>)
        ensures
            r@ == binary_view(BinOp::Add, (*self)@, (*rhs)@),
    {
        Expr::new(binary(BinOp::Add, copy_expr(self.erased()), copy_expr(rhs.erased())))
    }
}

impl<'a, T: Arithmetic> vstd::std_specs::ops::AddSpecImpl<&'a Expr<T>> for &'a Expr<T> {
    open spec fn obeys_add_spec() -> bool {
        false
    }

    open spec fn add_req(self, rhs: &'a Expr<T>) -> bool {
        true
    }

    open spec fn add_spec(self, rhs: &'a Expr<T>) -> Expr<T> {
        arbitrary()
    }
}

impl<T: Arithmetic> std::ops::Add<T> for Expr<T> {
    type Output = Expr<T>;

    fn add(self, rhs: T) -> (r: Expr<T>)
        ensures
            r@ == binary_view(BinOp::Add, self@, rhs.spec_lit()),
    {
        Expr::new(binary(BinOp::Add, self.into_erased(), rhs.to_erased()))
    }
}

impl<T: Arithmetic> vstd::std_specs::ops::AddSpecImpl<T> for Expr<T> {
    open spec fn obeys_add_spec() -> bool {
        false
    }

    open spec fn add_req(self, rhs: T) -> bool {
        true
    }

    open spec fn add_spec(self, rhs: T) -> Expr<T> {
        arbitrary()
    }
}

impl<'a, T: Arithmetic> std::ops::Add<T> for &'a Expr<T> {
    type Output = Expr<T>;

    fn add(self, rhs: T) -> (r: Expr<T>)
        ensures
            r@ == binary_view(BinOp::Add, (*self)@, rhs.spec_lit()),
    {
        Expr::new(binary(BinOp::Add, copy_expr(self.erased()), rhs.to_erased()))
    }
}

impl<'a, T: Arithmetic> vstd::std_specs::ops::AddSpecImpl<T> for &'a Expr<T> {
    open spec fn obeys_add_spec() -> bool {
        false
    }

    open spec fn add_req(self, rhs: T) -> bool {
        true
    }

    open spec fn add_spec(self, rhs: T) -> Expr<T> {
        arbitrary()
    }
}

impl<S: ArithmeticScalar> std::ops::Add<Expr<S>> for Expr<V2<S>> {
    type Output = Expr<V2<S>>;

    fn add(self, rhs: Expr<S>) -> (r: Expr<V2<S>>)
        ensures
            r@ == binary_view(BinOp::Add, self@, rhs@),
    {
        Expr::new(binary(BinOp::Add, self.into_erased(), rhs.into_erased()))
    }
}

impl<S: ArithmeticScalar> vstd::std_specs::ops::AddSpecImpl<Expr<S>> for Expr<V2<S>> {
    open spec fn obeys_add_spec() -> bool {
        false
    }

    open spec fn add_req(self, rhs: Expr<S>) -> bool {
        true
    }

    open spec fn add_spec(self, rhs: Expr<S>) -> Expr<V2<S>> {
        arbitrary()
    }
}

impl<'a, S: ArithmeticScalar> std::ops::Add<&'a Expr<S>> for Expr<V2<S>> {
    type Output = Expr<V2<S>>;

    fn add(self, rhs: &'a Expr<S>) -> (r: Expr<V2<S>>)
        ensures
            r@ == binary_view(BinOp::Add, self@, (*rhs)@),
    {
        Expr::new(binary(BinOp::Add, self.into_erased(), copy_expr(rhs.erased())))
    }
}

impl<'a, S: ArithmeticScalar> vstd::std_specs::ops::AddSpecImpl<&'a Expr<S>> for Expr<V2<S>> {
    open spec fn obeys_add_spec() -> bool {
        false
    }

    open spec fn add_req(self, rhs: &'a Expr<S>) -> bool {
        true
    }

    open spec fn add_spec(self, rhs: &'a Expr<S>) -> Expr<V2<S>> {
        arbitrary()
    }
}

impl<'a, S: ArithmeticScalar> std::ops::Add<Expr<S>> for &'a Expr<V2<S>> {
    type Output = Expr<V2<S>>;

    fn add(self, rhs: Expr<S>) -> (r: Expr<V2<S>>)
        ensures
            r@ == binary_view(BinOp::Add, (*self)@, rhs@),
    {
        Expr::new(binary(BinOp::Add, copy_expr(self.erased()), rhs.into_erased()))
    }
}

impl<'a, S: ArithmeticScalar> vstd::std_specs::ops::AddSpecImpl<Expr<S>> for &'a Expr<V2<S>> {
    open spec fn obeys_add_spec() -> bool {
        false
    }

    open spec fn add_req(self, rhs: Expr<S>) -> bool {
        true
    }

    open spec fn add_spec(self, rhs: Expr<S>) -> Expr<V2<S>> {
        arbitrary()
    }
}

impl<'a, S: ArithmeticScalar> std::ops::Add<&'a Expr<S>> for &'a Expr<V2<S>> {
    type Output = Expr<V2<S>>;

    fn add(self, rhs: &'a Expr<S>) -> (r: Expr<V2<S>>)
        ensures
            r@ == binary_view(BinOp::Add, (*self)@, (*rhs)@),
    {
        Expr::new(binary(BinOp::Add, copy_expr(self.erased()), copy_expr(rhs.erased())))
    }
}

impl<'a, S: ArithmeticScalar> vstd::std_specs::ops::AddSpecImpl<&'a Expr<S>> for &'a Expr<V2<S>> {
    open spec fn obeys_add_spec() -> bool {
        false
    }

    open spec fn add_req(self, rhs: &'a Expr<S>) -> bool {
        true
    }

    open spec fn add_spec(self, rhs: &'a Expr<S>) -> Expr<V2<S>> {
        arbitrary()
    }
}

impl<S: ArithmeticScalar> std::ops::Add<S> for Expr<V2<S>> {
    type Output = Expr<V2<S>>;

    fn add(self, rhs: S) -> (r: Expr<V2<S>>)
        ensures
            r@ == binary_view(BinOp::Add, self@, rhs.spec_lit()),
    {
        Expr::new(binary(BinOp::Add, self.into_erased(), rhs.to_erased()))
    }
}

impl<S: ArithmeticScalar> vstd::std_specs::ops::AddSpecImpl<S> for Expr<V2<S>> {
    open spec fn obeys_add_spec() -> bool {
        false
    }

    open spec fn add_req(self, rhs: S) -> bool {
        true
    }

    open spec fn add_spec(self, rhs: S) -> Expr<V2<S>> {
        arbitrary()
    }
}

impl<'a, S: ArithmeticScalar> std::ops::Add<S> for &'a Expr<V2<S>> {
    type Output = Expr<V2<S>>;

    fn add(self, rhs: S) -> (r: Expr<V2<S>>)
        ensures
            r@ == binary_view(BinOp::Add, (*self)@, rhs.spec_lit()),
    {
        Expr::new(binary(BinOp::Add, copy_expr(self.erased()), rhs.to_erased()))
    }
}

impl<'a, S: ArithmeticScalar> vstd::std_specs::ops::AddSpecImpl<S> for &'a Expr<V2<S>> {
    open spec fn obeys_add_spec() -> bool {
        false
    }

    open spec fn add_req(self, rhs: S) -> bool {
        true
    }

    open spec fn add_spec(self, rhs: S) -> Expr<V2<S>> {
        arbitrary()
    }
}

impl<S: ArithmeticScalar> std::ops::Add<Expr<S>> for Expr<V3<S>> {
    type Output = Expr<V3<S>>;

    fn add(self, rhs: Expr<S>) -> (r: Expr<V3<S>>)
        ensures
            r@ == binary_view(BinOp::Add, self@, rhs@),
    {
        Expr::new(binary(BinOp::Add, self.into_erased(), rhs.into_erased()))
    }
}

impl<S: ArithmeticScalar> vstd::std_specs::ops::AddSpecImpl<Expr<S>> for Expr<V3<S>> {
    open spec fn obeys_add_spec() -> bool {
        false
    }

    open spec fn add_req(self, rhs: Expr<S>) -> bool {
        true
    }

    open spec fn add_spec(self, rhs: Expr<S>) -> Expr<V3<S>> {
        arbitrary()
    }
}

impl<'a, S: ArithmeticScalar> std::ops::Add<&'a Expr<S>> for Expr<V3<S>> {
    type Output = Expr<V3<S>>;

    fn add(self, rhs: &'a Expr<S>) -> (r: Expr<V3<S>>)
        ensures
            r@ == binary_view(BinOp::Add, self@, (*rhs)@),
    {
        Expr::new(binary(BinOp::Add, self.into_erased(), copy_expr(rhs.erased())))
    }
}

impl<'a, S: ArithmeticScalar> vstd::std_specs::ops::AddSpecImpl<&'a Expr<S>> for Expr<V3<S>> {
    open spec fn obeys_add_spec() -> bool {
        false
    }

    open spec fn add_req(self, rhs: &'a Expr<S>) -> bool {
        true
    }

    open spec fn add_spec(self, rhs: &'a Expr<S>) -> Expr<V3<S>> {
        arbitrary()
    }
}

impl<'a, S: ArithmeticScalar> std::ops::Add<Expr<S>> for &'a Expr<V3<S>> {
    type Output = Expr<V3<S>>;

    fn add(self, rhs: Expr<S>) -> (r: Expr<V3<S>>)
        ensures
            r@ == binary_view(BinOp::Add, (*self)@, rhs@),
    {
        Expr::new(binary(BinOp::Add, copy_expr(self.erased()), rhs.into_erased()))
    }
}

impl<'a, S: ArithmeticScalar> vstd::std_specs::ops::AddSpecImpl<Expr<S>> for &'a Expr<V3<S>> {
    open spec fn obeys_add_spec() -> bool {
        false
    }

    open spec fn add_req(self, rhs: Expr<S>) -> bool {
        true
    }

    open spec fn add_spec(self, rhs: Expr<S>) -> Expr<V3<S>> {
        arbitrary()
    }
}

impl<'a, S: ArithmeticScalar> std::ops::Add<&'a Expr<S>> for &'a Expr<V3<S>> {
    type Output = Expr<V3<S>>;

    fn add(self, rhs: &'a Expr<S>) -> (r: Expr<V3<S>>)
        ensures
            r@ == binary_view(BinOp::Add, (*self)@, (*rhs)@),
    {
        Expr::new(binary(BinOp::Add, copy_expr(self.erased()), copy_expr(rhs.erased())))
    }
}

impl<'a, S: ArithmeticScalar> vstd::std_specs::ops::AddSpecImpl<&'a Expr<S>> for &'a Expr<V3<S>> {
    open spec fn obeys_add_spec() -> bool {
        false
    }

    open spec fn add_req(self, rhs: &'a Expr<S>) -> bool {
        true
    }

    open spec fn add_spec(self, rhs: &'a Expr<S>) -> Expr<V3<S>> {
        arbitrary()
    }
}

impl<S: ArithmeticScalar> std::ops::Add<S> for Expr<V3<S>> {
    type Output = Expr<V3<S>>;

    fn add(self, rhs: S) -> (r: Expr<V3<S>>)
        ensures
            r@ == binary_view(BinOp::Add, self@, rhs.spec_lit()),
    {
        Expr::new(binary(BinOp::Add, self.into_erased(), rhs.to_erased()))
    }
}

impl<S: ArithmeticScalar> vstd::std_specs::ops::AddSpecImpl<S> for Expr<V3<S>> {
    open spec fn obeys_add_spec() -> bool {
        false
    }

    open spec fn add_req(self, rhs: S) -> bool {
        true
    }

    open spec fn add_spec(self, rhs: S) -> Expr<V3<S>> {
        arbitrary()
    }
}

impl<'a, S: ArithmeticScalar> std::ops::Add<S> for &'a Expr<V3<S>> {
    type Output = Expr<V3<S>>;

    fn add(self, rhs: S) -> (r: Expr<V3<S>>)
        ensures
            r@ == binary_view(BinOp::Add, (*self)@, rhs.spec_lit()),
    {
        Expr::new(binary(BinOp::Add, copy_expr(self.erased()), rhs.to_erased()))
    }
}

impl<'a, S: ArithmeticScalar> vstd::std_specs::ops::AddSpecImpl<S> for &'a Expr<V3<S>> {
    open spec fn obeys_add_spec() -> bool {
        false
    }

    open spec fn add_req(self, rhs: S) -> bool {
        true
    }

    open spec fn add_spec(self, rhs: S) -> Expr<V3<S>> {
        arbitrary()
    }
}

impl<S: ArithmeticScalar> std::ops::Add<Expr<S>> for Expr<V4<S>> {
    type Output = Expr<V4<S>>;

    fn add(self, rhs: Expr<S>) -> (r: Expr<V4<S>>)
        ensures
            r@ == binary_view(BinOp::Add, self@, rhs@),
    {
        Expr::new(binary(BinOp::Add, self.into_erased(), rhs.into_erased()))
    }
}

impl<S: ArithmeticScalar> vstd::std_specs::ops::AddSpecImpl<Expr<S>> for Expr<V4<S>> {
    open spec fn obeys_add_spec() -> bool {
        false
    }

    open spec fn add_req(self, rhs: Expr<S>) -> bool {
        true
    }

    open spec fn add_spec(self, rhs: Expr<S>) -> Expr<V4<S>> {
        arbitrary()
    }
}

impl<'a, S: ArithmeticScalar> std::ops::Add<&'a Expr<S>> for Expr<V4<S>> {
    type Output = Expr<V4<S>>;

    fn add(self, rhs: &'a Expr<S>) -> (r: Expr<V4<S>>)
        ensures
            r@ == binary_view(BinOp::Add, self@, (*rhs)@),
    {
        Expr::new(binary(BinOp::Add, self.into_erased(), copy_expr(rhs.erased())))
    }
}

impl<'a, S: ArithmeticScalar> vstd::std_specs::ops::AddSpecImpl<&'a Expr<S>> for Expr<V4<S>> {
    open spec fn obeys_add_spec() -> bool {
        false
    }

    open spec fn add_req(self, rhs: &'a Expr<S>) -> bool {
        true
    }

    open spec fn add_spec(self, rhs: &'a Expr<S>) -> Expr<V4<S>> {
        arbitrary()
    }
}

impl<'a, S: ArithmeticScalar> std::ops::Add<Expr<S>> for &'a Expr<V4<S>> {
    type Output = Expr<V4<S>>;

    fn add(self, rhs: Expr<S>) -> (r: Expr<V4<S>>)
        ensures
            r@ == binary_view(BinOp::Add, (*self)@, rhs@),
    {
        Expr::new(binary(BinOp::Add, copy_expr(self.erased()), rhs.into_erased()))
    }
}

impl<'a, S: ArithmeticScalar> vstd::std_specs::ops::AddSpecImpl<Expr<S>> for &'a Expr<V4<S>> {
    open spec fn obeys_add_spec() -> bool {
        false
    }

    open spec fn add_req(self, rhs: Expr<S>) -> bool {
        true
    }

    open spec fn add_spec(self, rhs: Expr<S>) -> Expr<V4<S>> {
        arbitrary()
    }
}

impl<'a, S: ArithmeticScalar> std::ops::Add<&'a Expr<S>> for &'a Expr<V4<S>> {
    type Output = Expr<V4<S>>;

    fn add(self, rhs: &'a Expr<S>) -> (r: Expr<V4<S>>)
        ensures
            r@ == binary_view(BinOp::Add, (*self)@, (*rhs)@),
    {
        Expr::new(binary(BinOp::Add, copy_expr(self.erased()), copy_expr(rhs.erased())))
    }
}

impl<'a, S: ArithmeticScalar> vstd::std_specs::ops::AddSpecImpl<&'a Expr<S>> for &'a Expr<V4<S>> {
    open spec fn obeys_add_spec() -> bool {
        false
    }

    open spec fn add_req(self, rhs: &'a Expr<S>) -> bool {
        true
    }

    open spec fn add_spec(self, rhs: &'a Expr<S>) -> Expr<V4<S>> {
        arbitrary()
    }
}

impl<S: ArithmeticScalar> std::ops::Add<S> for Expr<V4<S>> {
    type Output = Expr<V4<S>>;

    fn add(self, rhs: S) -> (r: Expr<V4<S>>)
        ensures
            r@ == binary_view(BinOp::Add, self@, rhs.spec_lit()),
    {
        Expr::new(binary(BinOp::Add, self.into_erased(), rhs.to_erased()))
    }
}

impl<S: ArithmeticScalar> vstd::std_specs::ops::AddSpecImpl<S> for Expr<V4<S>> {
    open spec fn obeys_add_spec() -> bool {
        false
    }

    open spec fn add_req(self, rhs: S) -> bool {
        true
    }

    open spec fn add_spec(self, rhs: S) -> Expr<V4<S>> {
        arbitrary()
    }
}

impl<'a, S: ArithmeticScalar> std::ops::Add<S> for &'a Expr<V4<S>> {
    type Output = Expr<V4<S>>;

    fn add(self, rhs: S) -> (r: Expr<V4<S>>)
        ensures
            r@ == binary_view(BinOp::Add, (*self)@, rhs.spec_lit()),
    {
        Expr::new(binary(BinOp::Add, copy_expr(self.erased()), rhs.to_erased()))
    }
}

impl<'a, S: ArithmeticScalar> vstd::std_specs::ops::AddSpecImpl<S> for &'a Expr<V4<S>> {
    open spec fn obeys_add_spec() -> bool {
        false
    }

    open spec fn add_req(self, rhs: S) -> bool {
        true
    }

    open spec fn add_spec(self, rhs: S) -> Expr<V4<S>> {
        arbitrary()
    }
}

impl<T: Arithmetic> std::ops::Sub<Expr<T>> for Expr<T> {
    type Output = Expr<T>;

    fn sub(self, rhs: Expr<T>) -> (r: Expr<T>)
        ensures
            r@ == binary_view(BinOp::Sub, self@, rhs@),
    {
        Expr::new(binary(BinOp::Sub, self.into_erased(), rhs.into_erased()))
    }
}

impl<T: Arithmetic> vstd::std_specs::ops::SubSpecImpl<Expr<T>> for Expr<T> {
    open spec fn obeys_sub_spec() -> bool {
        false
    }

    open spec fn sub_req(self, rhs: Expr<T>) -> bool {
        true
    }

    open spec fn sub_spec(self, rhs: Expr<T>) -> Expr<T> {
        arbitrary()
    }
}

impl<'a, T: Arithmetic> std::ops::Sub<&'a Expr<T>> for Expr<T> {
    type Output = Expr<T>;

    fn sub(self, rhs: &'a Expr<T>) -> (r: Expr<T>)
        ensures
            r@ == binary_view(BinOp::Sub, self@, (*rhs)@),
    {
        Expr::new(binary(BinOp::Sub, self.into_erased(), copy_expr(rhs.erased())))
    }
}

impl<'a, T: Arithmetic> vstd::std_specs::ops::SubSpecImpl<&'a Expr<T>> for Expr<T> {
    open spec fn obeys_sub_spec() -> bool {
        false
    }

    open spec fn sub_req(self, rhs: &'a Expr<T>) -> bool {
        true
    }

    open spec fn sub_spec(self, rhs: &'a Expr<T>) -> Expr<T> {
        arbitrary()
    }
}

impl<'a, T: Arithmetic> std::ops::Sub<Expr<T>> for &'a Expr<T> {
    type Output = Expr<T>;

    fn sub(self, rhs: Expr<T>) -> (r: Expr<T>)
        ensures
            r@ == binary_view(BinOp::Sub, (*self)@, rhs@),
    {
        Expr::new(binary(BinOp::Sub, copy_expr(self.erased()), rhs.into_erased()))
    }
}

impl<'a, T: Arithmetic> vstd::std_specs::ops::SubSpecImpl<Expr<T>> for &'a Expr<T> {
    open spec fn obeys_sub_spec() -> bool {
        false
    }

    open spec fn sub_req(self, rhs: Expr<T>) -> bool {
        true
    }

    open spec fn sub_spec(self, rhs: Expr<T>) -> Expr<T> {
        arbitrary()
    }
}

impl<'a, T: Arithmetic> std::ops::Sub<&'a Expr<T>> for &'a Expr<T> {
    type Output = Expr<T>;

    fn sub(self, rhs: &'a Expr<T>) -> (r: Expr<T>)
        ensures
            r@ == binary_view(BinOp::Sub, (*self)@, (*rhs)@),
    {
        Expr::new(binary(BinOp::Sub, copy_expr(self.erased()), copy_expr(rhs.erased())))
    }
}

impl<'a, T: Arithmetic> vstd::std_specs::ops::SubSpecImpl<&'a Expr<T>> for &'a Expr<T> {
    open spec fn obeys_sub_spec() -> bool {
        false
    }

    open spec fn sub_req(self, rhs: &'a Expr<T>) -> bool {
        true
    }

    open spec fn sub_spec(self, rhs: &'a Expr<T>) -> Expr<T> {
        arbitrary()
    }
}

impl<T: Arithmetic> std::ops::Sub<T> for Expr<T> {
    type Output = Expr<T>;

    fn sub(self, rhs: T) -> (r: Expr<T>)
        ensures
            r@ == binary_view(BinOp::Sub, self@, rhs.spec_lit()),
    {
        Expr::new(binary(BinOp::Sub, self.into_erased(), rhs.to_erased()))
    }
}

impl<T: Arithmetic> vstd::std_specs::ops::SubSpecImpl<T> for Expr<T> {
    open spec fn obeys_sub_spec() -> bool {
        false
    }

    open spec fn sub_req(self, rhs: T) -> bool {
        true
    }

    open spec fn sub_spec(self, rhs: T) -> Expr<T> {
        arbitrary()
    }
}

impl<'a, T: Arithmetic> std::ops::Sub<T> for &'a Expr<T> {
    type Output = Expr<T>;

    fn sub(self, rhs: T) -> (r: Expr<T>)
        ensures
            r@ == binary_view(BinOp::Sub, (*self)@, rhs.spec_lit()),
    {
        Expr::new(binary(BinOp::Sub, copy_expr(self.erased()), rhs.to_erased()))
    }
}

impl<'a, T: Arithmetic> vstd::std_specs::ops::SubSpecImpl<T> for &'a Expr<T> {
    open spec fn obeys_sub_spec() -> bool {
        false
    }

    open spec fn sub_req(self, rhs: T) -> bool {
        true
    }

    open spec fn sub_spec(self, rhs: T) -> Expr<T> {
        arbitrary()
    }
}

impl<S: ArithmeticScalar> std::ops::Sub<Expr<S>> for Expr<V2<S>> {
    type Output = Expr<V2<S>>;

    fn sub(self, rhs: Expr<S>) -> (r: Expr<V2<S>>)
        ensures
            r@ == binary_view(BinOp::Sub, self@, rhs@),
    {
        Expr::new(binary(BinOp::Sub, self.into_erased(), rhs.into_erased()))
    }
}

impl<S: ArithmeticScalar> vstd::std_specs::ops::SubSpecImpl<Expr<S>> for Expr<V2<S>> {
    open spec fn obeys_sub_spec() -> bool {
        false
    }

    open spec fn sub_req(self, rhs: Expr<S>) -> bool {
        true
    }

    open spec fn sub_spec(self, rhs: Expr<S>) -> Expr<V2<S>> {
        arbitrary()
    }
}

impl<'a, S: ArithmeticScalar> std::ops::Sub<&'a Expr<S>> for Expr<V2<S>> {
    type Output = Expr<V2<S>>;

    fn sub(self, rhs: &'a Expr<S>) -> (r: Expr<V2<S>>)
        ensures
            r@ == binary_view(BinOp::Sub, self@, (*rhs)@),
    {
        Expr::new(binary(BinOp::Sub, self.into_erased(), copy_expr(rhs.erased())))
    }
}

impl<'a, S: ArithmeticScalar> vstd::std_specs::ops::SubSpecImpl<&'a Expr<S>> for Expr<V2<S>> {
    open spec fn obeys_sub_spec() -> bool {
        false
    }

    open spec fn sub_req(self, rhs: &'a Expr<S>) -> bool {
        true
    }

    open spec fn sub_spec(self, rhs: &'a Expr<S>) -> Expr<V2<S>> {
        arbitrary()
    }
}

impl<'a, S: ArithmeticScalar> std::ops::Sub<Expr<S>> for &'a Expr<V2<S>> {
    type Output = Expr<V2<S>>;

    fn sub(self, rhs: Expr<S>) -> (r: Expr<V2<S>>)
        ensures
            r@ == binary_view(BinOp::Sub, (*self)@, rhs@),
    {
        Expr::new(binary(BinOp::Sub, copy_expr(self.erased()), rhs.into_erased()))
    }
}

impl<'a, S: ArithmeticScalar> vstd::std_specs::ops::SubSpecImpl<Expr<S>> for &'a Expr<V2<S>> {
    open spec fn obeys_sub_spec() -> bool {
        false
    }

    open spec fn sub_req(self, rhs: Expr<S>) -> bool {
        true
    }

    open spec fn sub_spec(self, rhs: Expr<S>) -> Expr<V2<S>> {
        arbitrary()
    }
}

impl<'a, S: ArithmeticScalar> std::ops::Sub<&'a Expr<S>> for &'a Expr<V2<S>> {
    type Output = Expr<V2<S>>;

    fn sub(self, rhs: &'a Expr<S>) -> (r: Expr<V2<S>>)
        ensures
            r@ == binary_view(BinOp::Sub, (*self)@, (*rhs)@),
    {
        Expr::new(binary(BinOp::Sub, copy_expr(self.erased()), copy_expr(rhs.erased())))
    }
}

impl<'a, S: ArithmeticScalar> vstd::std_specs::ops::SubSpecImpl<&'a Expr<S>> for &'a Expr<V2<S>> {
    open spec fn obeys_sub_spec() -> bool {
        false
    }

    open spec fn sub_req(self, rhs: &'a Expr<S>) -> bool {
        true
    }

    open spec fn sub_spec(self, rhs: &'a Expr<S>) -> Expr<V2<S>> {
        arbitrary()
    }
}

impl<S: ArithmeticScalar> std::ops::Sub<S> for Expr<V2<S>> {
    type Output = Expr<V2<S>>;

    fn sub(self, rhs: S) -> (r: Expr<V2<S>>)
        ensures
            r@ == binary_view(BinOp::Sub, self@, rhs.spec_lit()),
    {
        Expr::new(binary(BinOp::Sub, self.into_erased(), rhs.to_erased()))
    }
}

impl<S: ArithmeticScalar> vstd::std_specs::ops::SubSpecImpl<S> for Expr<V2<S>> {
    open spec fn obeys_sub_spec() -> bool {
        false
    }

    open spec fn sub_req(self, rhs: S) -> bool {
        true
    }

    open spec fn sub_spec(self, rhs: S) -> Expr<V2<S>> {
        arbitrary()
    }
}

impl<'a, S: ArithmeticScalar> std::ops::Sub<S> for &'a Expr<V2<S>> {
    type Output = Expr<V2<S>>;

    fn sub(self, rhs: S) -> (r: Expr<V2<S>>)
        ensures
            r@ == binary_view(BinOp::Sub, (*self)@, rhs.spec_lit()),
    {
        Expr::new(binary(BinOp::Sub, copy_expr(self.erased()), rhs.to_erased()))
    }
}

impl<'a, S: ArithmeticScalar> vstd::std_specs::ops::SubSpecImpl<S> for &'a Expr<V2<S>> {
    open spec fn obeys_sub_spec() -> bool {
        false
    }

    open spec fn sub_req(self, rhs: S) -> bool {
        true
    }

    open spec fn sub_spec(self, rhs: S) -> Expr<V2<S>> {
        arbitrary()
    }
}

impl<S: ArithmeticScalar> std::ops::Sub<Expr<S>> for Expr<V3<S>> {
    type Output = Expr<V3<S>>;

    fn sub(self, rhs: Expr<S>) -> (r: Expr<V3<S>>)
        ensures
            r@ == binary_view(BinOp::Sub, self@, rhs@),
    {
        Expr::new(binary(BinOp::Sub, self.into_erased(), rhs.into_erased()))
    }
}

impl<S: ArithmeticScalar> vstd::std_specs::ops::SubSpecImpl<Expr<S>> for Expr<V3<S>> {
    open spec fn obeys_sub_spec() -> bool {
        false
    }

    open spec fn sub_req(self, rhs: Expr<S>) -> bool {
        true
    }

    open spec fn sub_spec(self, rhs: Expr<S>) -> Expr<V3<S>> {
        arbitrary()
    }
}

impl<'a, S: ArithmeticScalar> std::ops::Sub<&'a Expr<S>> for Expr<V3<S>> {
    type Output = Expr<V3<S>>;

    fn sub(self, rhs: &'a Expr<S>) -> (r: Expr<V3<S>>)
        ensures
            r@ == binary_view(BinOp::Sub, self@, (*rhs)@),
    {
        Expr::new(binary(BinOp::Sub, self.into_erased(), copy_expr(rhs.erased())))
    }
}

impl<'a, S: ArithmeticScalar> vstd::std_specs::ops::SubSpecImpl<&'a Expr<S>> for Expr<V3<S>> {
    open spec fn obeys_sub_spec() -> bool {
        false
    }

    open spec fn sub_req(self, rhs: &'a Expr<S>) -> bool {
        true
    }

    open spec fn sub_spec(self, rhs: &'a Expr<S>) -> Expr<V3<S>> {
        arbitrary()
    }
}

impl<'a, S: ArithmeticScalar> std::ops::Sub<Expr<S>> for &'a Expr<V3<S>> {
    type Output = Expr<V3<S>>;

    fn sub(self, rhs: Expr<S>) -> (r: Expr<V3<S>>)
        ensures
            r@ == binary_view(BinOp::Sub, (*self)@, rhs@),
    {
        Expr::new(binary(BinOp::Sub, copy_expr(self.erased()), rhs.into_erased()))
    }
}

impl<'a, S: ArithmeticScalar> vstd::std_specs::ops::SubSpecImpl<Expr<S>> for &'a Expr<V3<S>> {
    open spec fn obeys_sub_spec() -> bool {
        false
    }

    open spec fn sub_req(self, rhs: Expr<S>) -> bool {
        true
    }

    open spec fn sub_spec(self, rhs: Expr<S>) -> Expr<V3<S>> {
        arbitrary()
    }
}

impl<'a, S: ArithmeticScalar> std::ops::Sub<&'a Expr<S>> for &'a Expr<V3<S>> {
    type Output = Expr<V3<S>>;

    fn sub(self, rhs: &'a Expr<S>) -> (r: Expr<V3<S>>)
        ensures
            r@ == binary_view(BinOp::Sub, (*self)@, (*rhs)@),
    {
        Expr::new(binary(BinOp::Sub, copy_expr(self.erased()), copy_expr(rhs.erased())))
    }
}

impl<'a, S: ArithmeticScalar> vstd::std_specs::ops::SubSpecImpl<&'a Expr<S>> for &'a Expr<V3<S>> {
    open spec fn obeys_sub_spec() -> bool {
        false
    }

    open spec fn sub_req(self, rhs: &'a Expr<S>) -> bool {
        true
    }

    open spec fn sub_spec(self, rhs: &'a Expr<S>) -> Expr<V3<S>> {
        arbitrary()
    }
}

impl<S: ArithmeticScalar> std::ops::Sub<S> for Expr<V3<S>> {
    type Output = Expr<V3<S>>;

    fn sub(self, rhs: S) -> (r: Expr<V3<S>>)
        ensures
            r@ == binary_view(BinOp::Sub, self@, rhs.spec_lit()),
    {
        Expr::new(binary(BinOp::Sub, self.into_erased(), rhs.to_erased()))
    }
}

impl<S: ArithmeticScalar> vstd::std_specs::ops::SubSpecImpl<S> for Expr<V3<S>> {
    open spec fn obeys_sub_spec() -> bool {
        false
    }

    open spec fn sub_req(self, rhs: S) -> bool {
        true
    }

    open spec fn sub_spec(self, rhs: S) -> Expr<V3<S>> {
        arbitrary()
    }
}

impl<'a, S: ArithmeticScalar> std::ops::Sub<S> for &'a Expr<V3<S>> {
    type Output = Expr<V3<S>>;

    fn sub(self, rhs: S) -> (r: Expr<V3<S>>)
        ensures
            r@ == binary_view(BinOp::Sub, (*self)@, rhs.spec_lit()),
    {
        Expr::new(binary(BinOp::Sub, copy_expr(self.erased()), rhs.to_erased()))
    }
}

impl<'a, S: ArithmeticScalar> vstd::std_specs::ops::SubSpecImpl<S> for &'a Expr<V3<S>> {
    open spec fn obeys_sub_spec() -> bool {
        false
    }

    open spec fn sub_req(self, rhs: S) -> bool {
        true
    }

    open spec fn sub_spec(self, rhs: S) -> Expr<V3<S>> {
        arbitrary()
    }
}

impl<S: ArithmeticScalar> std::ops::Sub<Expr<S>> for Expr<V4<S>> {
    type Output = Expr<V4<S>>;

    fn sub(self, rhs: Expr<S>) -> (r: Expr<V4<S>>)
        ensures
            r@ == binary_view(BinOp::Sub, self@, rhs@),
    {
        Expr::new(binary(BinOp::Sub, self.into_erased(), rhs.into_erased()))
    }
}

impl<S: ArithmeticScalar> vstd::std_specs::ops::SubSpecImpl<Expr<S>> for Expr<V4<S>> {
    open spec fn obeys_sub_spec() -> bool {
        false
    }

    open spec fn sub_req(self, rhs: Expr<S>) -> bool {
        true
    }

    open spec fn sub_spec(self, rhs: Expr<S>) -> Expr<V4<S>> {
        arbitrary()
    }
}

impl<'a, S: ArithmeticScalar> std::ops::Sub<&'a Expr<S>> for Expr<V4<S>> {
    type Output = Expr<V4<S>>;

    fn sub(self, rhs: &'a Expr<S>) -> (r: Expr<V4<S>>)
        ensures
            r@ == binary_view(BinOp::Sub, self@, (*rhs)@),
    {
        Expr::new(binary(BinOp::Sub, self.into_erased(), copy_expr(rhs.erased())))
    }
}

impl<'a, S: ArithmeticScalar> vstd::std_specs::ops::SubSpecImpl<&'a Expr<S>> for Expr<V4<S>> {
    open spec fn obeys_sub_spec() -> bool {
        false
    }

    open spec fn sub_req(self, rhs: &'a Expr<S>) -> bool {
        true
    }

    open spec fn sub_spec(self, rhs: &'a Expr<S>) -> Expr<V4<S>> {
        arbitrary()
    }
}

impl<'a, S: ArithmeticScalar> std::ops::Sub<Expr<S>> for &'a Expr<V4<S>> {
    type Output = Expr<V4<S>>;

    fn sub(self, rhs: Expr<S>) -> (r: Expr<V4<S>>)
        ensures
            r@ == binary_view(BinOp::Sub, (*self)@, rhs@),
    {
        Expr::new(binary(BinOp::Sub, copy_expr(self.erased()), rhs.into_erased()))
    }
}

impl<'a, S: ArithmeticScalar> vstd::std_specs::ops::SubSpecImpl<Expr<S>> for &'a Expr<V4<S>> {
    open spec fn obeys_sub_spec() -> bool {
        false
    }

    open spec fn sub_req(self, rhs: Expr<S>) -> bool {
        true
    }

    open spec fn sub_spec(self, rhs: Expr<S>) -> Expr<V4<S>> {
        arbitrary()
    }
}

impl<'a, S: ArithmeticScalar> std::ops::Sub<&'a Expr<S>> for &'a Expr<V4<S>> {
    type Output = Expr<V4<S>>;

    fn sub(self, rhs: &'a Expr<S>) -> (r: Expr<V4<S>>)
        ensures
            r@ == binary_view(BinOp::Sub, (*self)@, (*rhs)@),
    {
        Expr::new(binary(BinOp::Sub, copy_expr(self.erased()), copy_expr(rhs.erased())))
    }
}

impl<'a, S: ArithmeticScalar> vstd::std_specs::ops::SubSpecImpl<&'a Expr<S>> for &'a Expr<V4<S>> {
    open spec fn obeys_sub_spec() -> bool {
        false
    }

    open spec fn sub_req(self, rhs: &'a Expr<S>) -> bool {
        true
    }

    open spec fn sub_spec(self, rhs: &'a Expr<S>) -> Expr<V4<S>> {
        arbitrary()
    }
}

impl<S: ArithmeticScalar> std::ops::Sub<S> for Expr<V4<S>> {
    type Output = Expr<V4<S>>;

    fn sub(self, rhs: S) -> (r: Expr<V4<S>>)
        ensures
            r@ == binary_view(BinOp::Sub, self@, rhs.spec_lit()),
    {
        Expr::new(binary(BinOp::Sub, self.into_erased(), rhs.to_erased()))
    }
}

impl<S: ArithmeticScalar> vstd::std_specs::ops::SubSpecImpl<S> for Expr<V4<S>> {
    open spec fn obeys_sub_spec() -> bool {
        false
    }

    open spec fn sub_req(self, rhs: S) -> bool {
        true
    }

    open spec fn sub_spec(self, rhs: S) -> Expr<V4<S>> {
        arbitrary()
    }
}

impl<'a, S: ArithmeticScalar> std::ops::Sub<S> for &'a Expr<V4<S>> {
    type Output = Expr<V4<S>>;

    fn sub(self, rhs: S) -> (r: Expr<V4<S>>)
        ensures
            r@ == binary_view(BinOp::Sub, (*self)@, rhs.spec_lit()),
    {
        Expr::new(binary(BinOp::Sub, copy_expr(self.erased()), rhs.to_erased()))
    }
}

impl<'a, S: ArithmeticScalar> vstd::std_specs::ops::SubSpecImpl<S> for &'a Expr<V4<S>> {
    open spec fn obeys_sub_spec() -> bool {
        false
    }

    open spec fn sub_req(self, rhs: S) -> bool {
        true
    }

    open spec fn sub_spec(self, rhs: S) -> Expr<V4<S>> {
        arbitrary()
    }
}

impl<T: Arithmetic> std::ops::Mul<Expr<T>> for Expr<T> {
    type Output = Expr<T>;

    fn mul(self, rhs: Expr<T>) -> (r: Expr<T>)
        ensures
            r@ == binary_view(BinOp::Mul, self@, rhs@),
    {
        Expr::new(binary(BinOp::Mul, self.into_erased(), rhs.into_erased()))
    }
}

impl<T: Arithmetic> vstd::std_specs::ops::MulSpecImpl<Expr<T>> for Expr<T> {
    open spec fn obeys_mul_spec() -> bool {
        false
    }

    open spec fn mul_req(self, rhs: Expr<T>) -> bool {
        true
    }

    open spec fn mul_spec(self, rhs: Expr<T>) -> Expr<T> {
        arbitrary()
    }
}

impl<'a, T: Arithmetic> std::ops::Mul<&'a Expr<T>> for Expr<T> {
    type Output = Expr<T>;

    fn mul(self, rhs: &'a Expr<T>) -> (r: Expr<T>)
        ensures
            r@ == binary_view(BinOp::Mul, self@, (*rhs)@),
    {
        Expr::new(binary(BinOp::Mul, self.into_erased(), copy_expr(rhs.erased())))
    }
}

impl<'a, T: Arithmetic> vstd::std_specs::ops::MulSpecImpl<&'a Expr<T>> for Expr<T> {
    open spec fn obeys_mul_spec() -> bool {
        false
    }

    open spec fn mul_req(self, rhs: &'a Expr<T>) -> bool {
        true
    }

    open spec fn mul_spec(self, rhs: &'a Expr<T>) -> Expr<T> {
        arbitrary()
    }
}

impl<'a, T: Arithmetic> std::ops::Mul<Expr<T>> for &'a Expr<T> {
    type Output = Expr<T>;

    fn mul(self, rhs: Expr<T>) -> (r: Expr<T>)
        ensures
            r@ == binary_view(BinOp::Mul, (*self)@, rhs@),
    {
        Expr::new(binary(BinOp::Mul, copy_expr(self.erased()), rhs.into_erased()))
    }
}

impl<'a, T: Arithmetic> vstd::std_specs::ops::MulSpecImpl<Expr<T>> for &'a Expr<T> {
    open spec fn obeys_mul_spec() -> bool {
        false
    }

    open spec fn mul_req(self, rhs: Expr<T>) -> bool {
        true
    }

    open spec fn mul_spec(self, rhs: Expr<T>) -> Expr<T> {
        arbitrary()
    }
}

impl<'a, T: Arithmetic> std::ops::Mul<&'a Expr<T>> for &'a Expr<T> {
    type Output = Expr<T>;

    fn mul(self, rhs: &'a Expr<T>) -> (r: Expr<T>)
        ensures
            r@ == binary_view(BinOp::Mul, (*self)@, (*rhs)@),
    {
        Expr::new(binary(BinOp::Mul, copy_expr(self.erased()), copy_expr(rhs.erased())))
    }
}

impl<'a, T: Arithmetic> vstd::std_specs::ops::MulSpecImpl<&'a Expr<T>> for &'a Expr<T> {
    open spec fn obeys_mul_spec() -> bool {
        false
    }

    open spec fn mul_req(self, rhs: &'a Expr<T>) -> bool {
        true
    }

    open spec fn mul_spec(self, rhs: &'a Expr<T>) -> Expr<T> {
        arbitrary()
    }
}

impl<T: Arithmetic> std::ops::Mul<T> for Expr<T> {
    type Output = Expr<T>;

    fn mul(self, rhs: T) -> (r: Expr<T>)
        ensures
            r@ == binary_view(BinOp::Mul, self@, rhs.spec_lit()),
    {
        Expr::new(binary(BinOp::Mul, self.into_erased(), rhs.to_erased()))
    }
}

impl<T: Arithmetic> vstd::std_specs::ops::MulSpecImpl<T> for Expr<T> {
    open spec fn obeys_mul_spec() -> bool {
        false
    }

    open spec fn mul_req(self, rhs: T) -> bool {
        true
    }

    open spec fn mul_spec(self, rhs: T) -> Expr<T> {
        arbitrary()
    }
}

impl<'a, T: Arithmetic> std::ops::Mul<T> for &'a Expr<T> {
    type Output = Expr<T>;

    fn mul(self, rhs: T) -> (r: Expr<T>)
        ensures
            r@ == binary_view(BinOp::Mul, (*self)@, rhs.spec_lit()),
    {
        Expr::new(binary(BinOp::Mul, copy_expr(self.erased()), rhs.to_erased()))
    }
}

impl<'a, T: Arithmetic> vstd::std_specs::ops::MulSpecImpl<T> for &'a Expr<T> {
    open spec fn obeys_mul_spec() -> bool {
        false
    }

    open spec fn mul_req(self, rhs: T) -> bool {
        true
    }

    open spec fn mul_spec(self, rhs: T) -> Expr<T> {
        arbitrary()
    }
}

impl<S: ArithmeticScalar> std::ops::Mul<Expr<S>> for Expr<V2<S>> {
    type Output = Expr<V2<S>>;

    fn mul(self, rhs: Expr<S>) -> (r: Expr<V2<S>>)
        ensures
            r@ == binary_view(BinOp::Mul, self@, rhs@),
    {
        Expr::new(binary(BinOp::Mul, self.into_erased(), rhs.into_erased()))
    }
}

impl<S: ArithmeticScalar> vstd::std_specs::ops::MulSpecImpl<Expr<S>> for Expr<V2<S>> {
    open spec fn obeys_mul_spec() -> bool {
        false
    }

    open spec fn mul_req(self, rhs: Expr<S>) -> bool {
        true
    }

    open spec fn mul_spec(self, rhs: Expr<S>) -> Expr<V2<S>> {
        arbitrary()
    }
}

impl<'a, S: ArithmeticScalar> std::ops::Mul<&'a Expr<S>> for Expr<V2<S>> {
    type Output = Expr<V2<S>>;

    fn mul(self, rhs: &'a Expr<S>) -> (r: Expr<V2<S>>)
        ensures
            r@ == binary_view(BinOp::Mul, self@, (*rhs)@),
    {
        Expr::new(binary(BinOp::Mul, self.into_erased(), copy_expr(rhs.erased())))
    }
}

impl<'a, S: ArithmeticScalar> vstd::std_specs::ops::MulSpecImpl<&'a Expr<S>> for Expr<V2<S>> {
    open spec fn obeys_mul_spec() -> bool {
        false
    }

    open spec fn mul_req(self, rhs: &'a Expr<S>) -> bool {
        true
    }

    open spec fn mul_spec(self, rhs: &'a Expr<S>) -> Expr<V2<S>> {
        arbitrary()
    }
}

impl<'a, S: ArithmeticScalar> std::ops::Mul<Expr<S>> for &'a Expr<V2<S>> {
    type Output = Expr<V2<S>>;

    fn mul(self, rhs: Expr<S>) -> (r: Expr<V2<S>>)
        ensures
            r@ == binary_view(BinOp::Mul, (*self)@, rhs@),
    {
        Expr::new(binary(BinOp::Mul, copy_expr(self.erased()), rhs.into_erased()))
    }
}

impl<'a, S: ArithmeticScalar> vstd::std_specs::ops::MulSpecImpl<Expr<S>> for &'a Expr<V2<S>> {
    open spec fn obeys_mul_spec() -> bool {
        false
    }

    open spec fn mul_req(self, rhs: Expr<S>) -> bool {
        true
    }

    open spec fn mul_spec(self, rhs: Expr<S>) -> Expr<V2<S>> {
        arbitrary()
    }
}

impl<'a, S: ArithmeticScalar> std::ops::Mul<&'a Expr<S>> for &'a Expr<V2<S>> {
    type Output = Expr<V2<S>>;

    fn mul(self, rhs: &'a Expr<S>) -> (r: Expr<V2<S>>)
        ensures
            r@ == binary_view(BinOp::Mul, (*self)@, (*rhs)@),
    {
        Expr::new(binary(BinOp::Mul, copy_expr(self.erased()), copy_expr(rhs.erased())))
    }
}

impl<'a, S: ArithmeticScalar> vstd::std_specs::ops::MulSpecImpl<&'a Expr<S>> for &'a Expr<V2<S>> {
    open spec fn obeys_mul_spec() -> bool {
        false
    }

    open spec fn mul_req(self, rhs: &'a Expr<S>) -> bool {
        true
    }

    open spec fn mul_spec(self, rhs: &'a Expr<S>) -> Expr<V2<S>> {
        arbitrary()
    }
}

impl<S: ArithmeticScalar> std::ops::Mul<S> for Expr<V2<S>> {
    type Output = Expr<V2<S>>;

    fn mul(self, rhs: S) -> (r: Expr<V2<S>>)
        ensures
            r@ == binary_view(BinOp::Mul, self@, rhs.spec_lit()),
    {
        Expr::new(binary(BinOp::Mul, self.into_erased(), rhs.to_erased()))
    }
}

impl<S: ArithmeticScalar> vstd::std_specs::ops::MulSpecImpl<S> for Expr<V2<S>> {
    open spec fn obeys_mul_spec() -> bool {
        false
    }

    open spec fn mul_req(self, rhs: S) -> bool {
        true
    }

    open spec fn mul_spec(self, rhs: S) -> Expr<V2<S>> {
        arbitrary()
    }
}

impl<'a, S: ArithmeticScalar> std::ops::Mul<S> for &'a Expr<V2<S>> {
    type Output = Expr<V2<S>>;

    fn mul(self, rhs: S) -> (r: Expr<V2<S>>)
        ensures
            r@ == binary_view(BinOp::Mul, (*self)@, rhs.spec_lit()),
    {
        Expr::new(binary(BinOp::Mul, copy_expr(self.erased()), rhs.to_erased()))
    }
}

impl<'a, S: ArithmeticScalar> vstd::std_specs::ops::MulSpecImpl<S> for &'a Expr<V2<S>> {
    open spec fn obeys_mul_spec() -> bool {
        false
    }

    open spec fn mul_req(self, rhs: S) -> bool {
        true
    }

    open spec fn mul_spec(self, rhs: S) -> Expr<V2<S>> {
        arbitrary()
    }
}

impl<S: ArithmeticScalar> std::ops::Mul<Expr<S>> for Expr<V3<S>> {
    type Output = Expr<V3<S>>;

    fn mul(self, rhs: Expr<S>) -> (r: Expr<V3<S>>)
        ensures
            r@ == binary_view(BinOp::Mul, self@, rhs@),
    {
        Expr::new(binary(BinOp::Mul, self.into_erased(), rhs.into_erased()))
    }
}

impl<S: ArithmeticScalar> vstd::std_specs::ops::MulSpecImpl<Expr<S>> for Expr<V3<S>> {
    open spec fn obeys_mul_spec() -> bool {
        false
    }

    open spec fn mul_req(self, rhs: Expr<S>) -> bool {
        true
    }

    open spec fn mul_spec(self, rhs: Expr<S>) -> Expr<V3<S>> {
        arbitrary()
    }
}

impl<'a, S: ArithmeticScalar> std::ops::Mul<&'a Expr<S>> for Expr<V3<S>> {
    type Output = Expr<V3<S>>;

    fn mul(self, rhs: &'a Expr<S>) -> (r: Expr<V3<S>>)
        ensures
            r@ == binary_view(BinOp::Mul, self@, (*rhs)@),
    {
        Expr::new(binary(BinOp::Mul, self.into_erased(), copy_expr(rhs.erased())))
    }
}

impl<'a, S: ArithmeticScalar> vstd::std_specs::ops::MulSpecImpl<&'a Expr<S>> for Expr<V3<S>> {
    open spec fn obeys_mul_spec() -> bool {
        false
    }

    open spec fn mul_req(self, rhs: &'a Expr<S>) -> bool {
        true
    }

    open spec fn mul_spec(self, rhs: &'a Expr<S>) -> Expr<V3<S>> {
        arbitrary()
    }
}

impl<'a, S: ArithmeticScalar> std::ops::Mul<Expr<S>> for &'a Expr<V3<S>> {
    type Output = Expr<V3<S>>;

    fn mul(self, rhs: Expr<S>) -> (r: Expr<V3<S>>)
        ensures
            r@ == binary_view(BinOp::Mul, (*self)@, rhs@),
    {
        Expr::new(binary(BinOp::Mul, copy_expr(self.erased()), rhs.into_erased()))
    }
}

impl<'a, S: ArithmeticScalar> vstd::std_specs::ops::MulSpecImpl<Expr<S>> for &'a Expr<V3<S>> {
    open spec fn obeys_mul_spec() -> bool {
        false
    }

    open spec fn mul_req(self, rhs: Expr<S>) -> bool {
        true
    }

    open spec fn mul_spec(self, rhs: Expr<S>) -> Expr<V3<S>> {
        arbitrary()
    }
}

impl<'a, S: ArithmeticScalar> std::ops::Mul<&'a Expr<S>> for &'a Expr<V3<S>> {
    type Output = Expr<V3<S>>;

    fn mul(self, rhs: &'a Expr<S>) -> (r: Expr<V3<S>>)
        ensures
            r@ == binary_view(BinOp::Mul, (*self)@, (*rhs)@),
    {
        Expr::new(binary(BinOp::Mul, copy_expr(self.erased()), copy_expr(rhs.erased())))
    }
}

impl<'a, S: ArithmeticScalar> vstd::std_specs::ops::MulSpecImpl<&'a Expr<S>> for &'a Expr<V3<S>> {
    open spec fn obeys_mul_spec() -> bool {
        false
    }

    open spec fn mul_req(self, rhs: &'a Expr<S>) -> bool {
        true
    }

    open spec fn mul_spec(self, rhs: &'a Expr<S>) -> Expr<V3<S>> {
        arbitrary()
    }
}

impl<S: ArithmeticScalar> std::ops::Mul<S> for Expr<V3<S>> {
    type Output = Expr<V3<S>>;

    fn mul(self, rhs: S) -> (r: Expr<V3<S>>)
        ensures
            r@ == binary_view(BinOp::Mul, self@, rhs.spec_lit()),
    {
        Expr::new(binary(BinOp::Mul, self.into_erased(), rhs.to_erased()))
    }
}

impl<S: ArithmeticScalar> vstd::std_specs::ops::MulSpecImpl<S> for Expr<V3<S>> {
    open spec fn obeys_mul_spec() -> bool {
        false
    }

    open spec fn mul_req(self, rhs: S) -> bool {
        true
    }

    open spec fn mul_spec(self, rhs: S) -> Expr<V3<S>> {
        arbitrary()
    }
}

impl<'a, S: ArithmeticScalar> std::ops::Mul<S> for &'a Expr<V3<S>> {
    type Output = Expr<V3<S>>;

    fn mul(self, rhs: S) -> (r: Expr<V3<S>>)
        ensures
            r@ == binary_view(BinOp::Mul, (*self)@, rhs.spec_lit()),
    {
        Expr::new(binary(BinOp::Mul, copy_expr(self.erased()), rhs.to_erased()))
    }
}

impl<'a, S: ArithmeticScalar> vstd::std_specs::ops::MulSpecImpl<S> for &'a Expr<V3<S>> {
    open spec fn obeys_mul_spec() -> bool {
        false
    }

    open spec fn mul_req(self, rhs: S) -> bool {
        true
    }

    open spec fn mul_spec(self, rhs: S) -> Expr<V3<S>> {
        arbitrary()
    }
}

impl<S: ArithmeticScalar> std::ops::Mul<Expr<S>> for Expr<V4<S>> {
    type Output = Expr<V4<S>>;

    fn mul(self, rhs: Expr<S>) -> (r: Expr<V4<S>>)
        ensures
            r@ == binary_view(BinOp::Mul, self@, rhs@),
    {
        Expr::new(binary(BinOp::Mul, self.into_erased(), rhs.into_erased()))
    }
}

impl<S: ArithmeticScalar> vstd::std_specs::ops::MulSpecImpl<Expr<S>> for Expr<V4<S>> {
    open spec fn obeys_mul_spec() -> bool {
        false
    }

    open spec fn mul_req(self, rhs: Expr<S>) -> bool {
        true
    }

    open spec fn mul_spec(self, rhs: Expr<S>) -> Expr<V4<S>> {
        arbitrary()
    }
}

impl<'a, S: ArithmeticScalar> std::ops::Mul<&'a Expr<S>> for Expr<V4<S>> {
    type Output = Expr<V4<S>>;

    fn mul(self, rhs: &'a Expr<S>) -> (r: Expr<V4<S>>)
        ensures
            r@ == binary_view(BinOp::Mul, self@, (*rhs)@),
    {
        Expr::new(binary(BinOp::Mul, self.into_erased(), copy_expr(rhs.erased())))
    }
}

impl<'a, S: ArithmeticScalar> vstd::std_specs::ops::MulSpecImpl<&'a Expr<S>> for Expr<V4<S>> {
    open spec fn obeys_mul_spec() -> bool {
        false
    }

    open spec fn mul_req(self, rhs: &'a Expr<S>) -> bool {
        true
    }

    open spec fn mul_spec(self, rhs: &'a Expr<S>) -> Expr<V4<S>> {
        arbitrary()
    }
}

impl<'a, S: ArithmeticScalar> std::ops::Mul<Expr<S>> for &'a Expr<V4<S>> {
    type Output = Expr<V4<S>>;

    fn mul(self, rhs: Expr<S>) -> (r: Expr<V4<S>>)
        ensures
            r@ == binary_view(BinOp::Mul, (*self)@, rhs@),
    {
        Expr::new(binary(BinOp::Mul, copy_expr(self.erased()), rhs.into_erased()))
    }
}

impl<'a, S: ArithmeticScalar> vstd::std_specs::ops::MulSpecImpl<Expr<S>> for &'a Expr<V4<S>> {
    open spec fn obeys_mul_spec() -> bool {
        false
    }

    open spec fn mul_req(self, rhs: Expr<S>) -> bool {
        true
    }

    open spec fn mul_spec(self, rhs: Expr<S>) -> Expr<V4<S>> {
        arbitrary()
    }
}

impl<'a, S: ArithmeticScalar> std::ops::Mul<&'a Expr<S>> for &'a Expr<V4<S>> {
    type Output = Expr<V4<S>>;

    fn mul(self, rhs: &'a Expr<S>) -> (r: Expr<V4<S>>)
        ensures
            r@ == binary_view(BinOp::Mul, (*self)@, (*rhs)@),
    {
        Expr::new(binary(BinOp::Mul, copy_expr(self.erased()), copy_expr(rhs.erased())))
    }
}

impl<'a, S: ArithmeticScalar> vstd::std_specs::ops::MulSpecImpl<&'a Expr<S>> for &'a Expr<V4<S>> {
    open spec fn obeys_mul_spec() -> bool {
        false
    }

    open spec fn mul_req(self, rhs: &'a Expr<S>) -> bool {
        true
    }

    open spec fn mul_spec(self, rhs: &'a Expr<S>) -> Expr<V4<S>> {
        arbitrary()
    }
}

impl<S: ArithmeticScalar> std::ops::Mul<S> for Expr<V4<S>> {
    type Output = Expr<V4<S>>;

    fn mul(self, rhs: S) -> (r: Expr<V4<S>>)
        ensures
            r@ == binary_view(BinOp::Mul, self@, rhs.spec_lit()),
    {
        Expr::new(binary(BinOp::Mul, self.into_erased(), rhs.to_erased()))
    }
}

impl<S: ArithmeticScalar> vstd::std_specs::ops::MulSpecImpl<S> for Expr<V4<S>> {
    open spec fn obeys_mul_spec() -> bool {
        false
    }

    open spec fn mul_req(self, rhs: S) -> bool {
        true
    }

    open spec fn mul_spec(self, rhs: S) -> Expr<V4<S>> {
        arbitrary()
    }
}

impl<'a, S: ArithmeticScalar> std::ops::Mul<S> for &'a Expr<V4<S>> {
    type Output = Expr<V4<S>>;

    fn mul(self, rhs: S) -> (r: Expr<V4<S>>)
        ensures
            r@ == binary_view(BinOp::Mul, (*self)@, rhs.spec_lit()),
    {
        Expr::new(binary(BinOp::Mul, copy_expr(self.erased()), rhs.to_erased()))
    }
}

impl<'a, S: ArithmeticScalar> vstd::std_specs::ops::MulSpecImpl<S> for &'a Expr<V4<S>> {
    open spec fn obeys_mul_spec() -> bool {
        false
    }

    open spec fn mul_req(self, rhs: S) -> bool {
        true
    }

    open spec fn mul_spec(self, rhs: S) -> Expr<V4<S>> {
        arbitrary()
    }
}

impl<T: Arithmetic> std::ops::Div<Expr<T>> for Expr<T> {
    type Output = Expr<T>;

    fn div(self, rhs: Expr<T>) -> (r: Expr<T>)
        ensures
            r@ == binary_view(BinOp::Div, self@, rhs@),
    {
        Expr::new(binary(BinOp::Div, self.into_erased(), rhs.into_erased()))
    }
}

impl<T: Arithmetic> vstd::std_specs::ops::DivSpecImpl<Expr<T>> for Expr<T> {
    open spec fn obeys_div_spec() -> bool {
        false
    }

    open spec fn div_req(self, rhs: Expr<T>) -> bool {
        true
    }

    open spec fn div_spec(self, rhs: Expr<T>) -> Expr<T> {
        arbitrary()
    }
}

impl<'a, T: Arithmetic> std::ops::Div<&'a Expr<T>> for Expr<T> {
    type Output = Expr<T>;

    fn div(self, rhs: &'a Expr<T>) -> (r: Expr<T>)
        ensures
            r@ == binary_view(BinOp::Div, self@, (*rhs)@),
    {
        Expr::new(binary(BinOp::Div, self.into_erased(), copy_expr(rhs.erased())))
    }
}

impl<'a, T: Arithmetic> vstd::std_specs::ops::DivSpecImpl<&'a Expr<T>> for Expr<T> {
    open spec fn obeys_div_spec() -> bool {
        false
    }

    open spec fn div_req(self, rhs: &'a Expr<T>) -> bool {
        true
    }

    open spec fn div_spec(self, rhs: &'a Expr<T>) -> Expr<T> {
        arbitrary()
    }
}

impl<'a, T: Arithmetic> std::ops::Div<Expr<T>> for &'a Expr<T> {
    type Output = Expr<T>;

    fn div(self, rhs: Expr<T>) -> (r: Expr<T>)
        ensures
            r@ == binary_view(BinOp::Div, (*self)@, rhs@),
    {
        Expr::new(binary(BinOp::Div, copy_expr(self.erased()), rhs.into_erased()))
    }
}

impl<'a, T: Arithmetic> vstd::std_specs::ops::DivSpecImpl<Expr<T>> for &'a Expr<T> {
    open spec fn obeys_div_spec() -> bool {
        false
    }

    open spec fn div_req(self, rhs: Expr<T>) -> bool {
        true
    }

    open spec fn div_spec(self, rhs: Expr<T>) -> Expr<T> {
        arbitrary()
    }
}

impl<'a, T: Arithmetic> std::ops::Div<&'a Expr<T>> for &'a Expr<T> {
    type Output = Expr<T>;

    fn div(self, rhs: &'a Expr<T>) -> (r: Expr<T>)
        ensures
            r@ == binary_view(BinOp::Div, (*self)@, (*rhs)@),
    {
        Expr::new(binary(BinOp::Div, copy_expr(self.erased()), copy_expr(rhs.erased())))
    }
}

impl<'a, T: Arithmetic> vstd::std_specs::ops::DivSpecImpl<&'a Expr<T>> for &'a Expr<T> {
    open spec fn obeys_div_spec() -> bool {
        false
    }

    open spec fn div_req(self, rhs: &'a Expr<T>) -> bool {
        true
    }

    open spec fn div_spec(self, rhs: &'a Expr<T>) -> Expr<T> {
        arbitrary()
    }
}

impl<T: Arithmetic> std::ops::Div<T> for Expr<T> {
    type Output = Expr<T>;

    fn div(self, rhs: T) -> (r: Expr<T>)
        ensures
            r@ == binary_view(BinOp::Div, self@, rhs.spec_lit()),
    {
        Expr::new(binary(BinOp::Div, self.into_erased(), rhs.to_erased()))
    }
}

impl<T: Arithmetic> vstd::std_specs::ops::DivSpecImpl<T> for Expr<T> {
    open spec fn obeys_div_spec() -> bool {
        false
    }

    open spec fn div_req(self, rhs: T) -> bool {
        true
    }

    open spec fn div_spec(self, rhs: T) -> Expr<T> {
        arbitrary()
    }
}

impl<'a, T: Arithmetic> std::ops::Div<T> for &'a Expr<T> {
    type Output = Expr<T>;

    fn div(self, rhs: T) -> (r: Expr<T>)
        ensures
            r@ == binary_view(BinOp::Div, (*self)@, rhs.spec_lit()),
    {
        Expr::new(binary(BinOp::Div, copy_expr(self.erased()), rhs.to_erased()))
    }
}

impl<'a, T: Arithmetic> vstd::std_specs::ops::DivSpecImpl<T> for &'a Expr<T> {
    open spec fn obeys_div_spec() -> bool {
        false
    }

    open spec fn div_req(self, rhs: T) -> bool {
        true
    }

    open spec fn div_spec(self, rhs: T) -> Expr<T> {
        arbitrary()
    }
}

impl<S: ArithmeticScalar> std::ops::Div<Expr<S>> for Expr<V2<S>> {
    type Output = Expr<V2<S>>;

    fn div(self, rhs: Expr<S>) -> (r: Expr<V2<S>>)
        ensures
            r@ == binary_view(BinOp::Div, self@, rhs@),
    {
        Expr::new(binary(BinOp::Div, self.into_erased(), rhs.into_erased()))
    }
}

impl<S: ArithmeticScalar> vstd::std_specs::ops::DivSpecImpl<Expr<S>> for Expr<V2<S>> {
    open spec fn obeys_div_spec() -> bool {
        false
    }

    open spec fn div_req(self, rhs: Expr<S>) -> bool {
        true
    }

    open spec fn div_spec(self, rhs: Expr<S>) -> Expr<V2<S>> {
        arbitrary()
    }
}

impl<'a, S: ArithmeticScalar> std::ops::Div<&'a Expr<S>> for Expr<V2<S>> {
    type Output = Expr<V2<S>>;

    fn div(self, rhs: &'a Expr<S>) -> (r: Expr<V2<S>>)
        ensures
            r@ == binary_view(BinOp::Div, self@, (*rhs)@),
    {
        Expr::new(binary(BinOp::Div, self.into_erased(), copy_expr(rhs.erased())))
    }
}

impl<'a, S: ArithmeticScalar> vstd::std_specs::ops::DivSpecImpl<&'a Expr<S>> for Expr<V2<S>> {
    open spec fn obeys_div_spec() -> bool {
        false
    }

    open spec fn div_req(self, rhs: &'a Expr<S>) -> bool {
        true
    }

    open spec fn div_spec(self, rhs: &'a Expr<S>) -> Expr<V2<S>> {
        arbitrary()
    }
}

impl<'a, S: ArithmeticScalar> std::ops::Div<Expr<S>> for &'a Expr<V2<S>> {
    type Output = Expr<V2<S>>;

    fn div(self, rhs: Expr<S>) -> (r: Expr<V2<S>>)
        ensures
            r@ == binary_view(BinOp::Div, (*self)@, rhs@),
    {
        Expr::new(binary(BinOp::Div, copy_expr(self.erased()), rhs.into_erased()))
    }
}

impl<'a, S: ArithmeticScalar> vstd::std_specs::ops::DivSpecImpl<Expr<S>> for &'a Expr<V2<S>> {
    open spec fn obeys_div_spec() -> bool {
        false
    }

    open spec fn div_req(self, rhs: Expr<S>) -> bool {
        true
    }

    open spec fn div_spec(self, rhs: Expr<S>) -> Expr<V2<S>> {
        arbitrary()
    }
}

impl<'a, S: ArithmeticScalar> std::ops::Div<&'a Expr<S>> for &'a Expr<V2<S>> {
    type Output = Expr<V2<S>>;

    fn div(self, rhs: &'a Expr<S>) -> (r: Expr<V2<S>>)
        ensures
            r@ == binary_view(BinOp::Div, (*self)@, (*rhs)@),
    {
        Expr::new(binary(BinOp::Div, copy_expr(self.erased()), copy_expr(rhs.erased())))
    }
}

impl<'a, S: ArithmeticScalar> vstd::std_specs::ops::DivSpecImpl<&'a Expr<S>> for &'a Expr<V2<S>> {
    open spec fn obeys_div_spec() -> bool {
        false
    }

    open spec fn div_req(self, rhs: &'a Expr<S>) -> bool {
        true
    }

    open spec fn div_spec(self, rhs: &'a Expr<S>) -> Expr<V2<S>> {
        arbitrary()
    }
}

impl<S: ArithmeticScalar> std::ops::Div<S> for Expr<V2<S>> {
    type Output = Expr<V2<S>>;

    fn div(self, rhs: S) -> (r: Expr<V2<S>>)
        ensures
            r@ == binary_view(BinOp::Div, self@, rhs.spec_lit()),
    {
        Expr::new(binary(BinOp::Div, self.into_erased(), rhs.to_erased()))
    }
}

impl<S: ArithmeticScalar> vstd::std_specs::ops::DivSpecImpl<S> for Expr<V2<S>> {
    open spec fn obeys_div_spec() -> bool {
        false
    }

    open spec fn div_req(self, rhs: S) -> bool {
        true
    }

    open spec fn div_spec(self, rhs: S) -> Expr<V2<S>> {
        arbitrary()
    }
}

impl<'a, S: ArithmeticScalar> std::ops::Div<S> for &'a Expr<V2<S>> {
    type Output = Expr<V2<S>>;

    fn div(self, rhs: S) -> (r: Expr<V2<S>>)
        ensures
            r@ == binary_view(BinOp::Div, (*self)@, rhs.spec_lit()),
    {
        Expr::new(binary(BinOp::Div, copy_expr(self.erased()), rhs.to_erased()))
    }
}

impl<'a, S: ArithmeticScalar> vstd::std_specs::ops::DivSpecImpl<S> for &'a Expr<V2<S>> {
    open spec fn obeys_div_spec() -> bool {
        false
    }

    open spec fn div_req(self, rhs: S) -> bool {
        true
    }

    open spec fn div_spec(self, rhs: S) -> Expr<V2<S>> {
        arbitrary()
    }
}

impl<S: ArithmeticScalar> std::ops::Div<Expr<S>> for Expr<V3<S>> {
    type Output = Expr<V3<S>>;

    fn div(self, rhs: Expr<S>) -> (r: Expr<V3<S>>)
        ensures
            r@ == binary_view(BinOp::Div, self@, rhs@),
    {
        Expr::new(binary(BinOp::Div, self.into_erased(), rhs.into_erased()))
    }
}

impl<S: ArithmeticScalar> vstd::std_specs::ops::DivSpecImpl<Expr<S>> for Expr<V3<S>> {
    open spec fn obeys_div_spec() -> bool {
        false
    }

    open spec fn div_req(self, rhs: Expr<S>) -> bool {
        true
    }

    open spec fn div_spec(self, rhs: Expr<S>) -> Expr<V3<S>> {
        arbitrary()
    }
}

impl<'a, S: ArithmeticScalar> std::ops::Div<&'a Expr<S>> for Expr<V3<S>> {
    type Output = Expr<V3<S>>;

    fn div(self, rhs: &'a Expr<S>) -> (r: Expr<V3<S>>)
        ensures
            r@ == binary_view(BinOp::Div, self@, (*rhs)@),
    {
        Expr::new(binary(BinOp::Div, self.into_erased(), copy_expr(rhs.erased())))
    }
}

impl<'a, S: ArithmeticScalar> vstd::std_specs::ops::DivSpecImpl<&'a Expr<S>> for Expr<V3<S>> {
    open spec fn obeys_div_spec() -> bool {
        false
    }

    open spec fn div_req(self, rhs: &'a Expr<S>) -> bool {
        true
    }

    open spec fn div_spec(self, rhs: &'a Expr<S>) -> Expr<V3<S>> {
        arbitrary()
    }
}

impl<'a, S: ArithmeticScalar> std::ops::Div<Expr<S>> for &'a Expr<V3<S>> {
    type Output = Expr<V3<S>>;

    fn div(self, rhs: Expr<S>) -> (r: Expr<V3<S>>)
        ensures
            r@ == binary_view(BinOp::Div, (*self)@, rhs@),
    {
        Expr::new(binary(BinOp::Div, copy_expr(self.erased()), rhs.into_erased()))
    }
}

impl<'a, S: ArithmeticScalar> vstd::std_specs::ops::DivSpecImpl<Expr<S>> for &'a Expr<V3<S>> {
    open spec fn obeys_div_spec() -> bool {
        false
    }

    open spec fn div_req(self, rhs: Expr<S>) -> bool {
        true
    }

    open spec fn div_spec(self, rhs: Expr<S>) -> Expr<V3<S>> {
        arbitrary()
    }
}

impl<'a, S: ArithmeticScalar> std::ops::Div<&'a Expr<S>> for &'a Expr<V3<S>> {
    type Output = Expr<V3<S>>;

    fn div(self, rhs: &'a Expr<S>) -> (r: Expr<V3<S>>)
        ensures
            r@ == binary_view(BinOp::Div, (*self)@, (*rhs)@),
    {
        Expr::new(binary(BinOp::Div, copy_expr(self.erased()), copy_expr(rhs.erased())))
    }
}

impl<'a, S: ArithmeticScalar> vstd::std_specs::ops::DivSpecImpl<&'a Expr<S>> for &'a Expr<V3<S>> {
    open spec fn obeys_div_spec() -> bool {
        false
    }

    open spec fn div_req(self, rhs: &'a Expr<S>) -> bool {
        true
    }

    open spec fn div_spec(self, rhs: &'a Expr<S>) -> Expr<V3<S>> {
        arbitrary()
    }
}

impl<S: ArithmeticScalar> std::ops::Div<S> for Expr<V3<S>> {
    type Output = Expr<V3<S>>;

    fn div(self, rhs: S) -> (r: Expr<V3<S>>)
        ensures
            r@ == binary_view(BinOp::Div, self@, rhs.spec_lit()),
    {
        Expr::new(binary(BinOp::Div, self.into_erased(), rhs.to_erased()))
    }
}

impl<S: ArithmeticScalar> vstd::std_specs::ops::DivSpecImpl<S> for Expr<V3<S>> {
    open spec fn obeys_div_spec() -> bool {
        false
    }

    open spec fn div_req(self, rhs: S) -> bool {
        true
    }

    open spec fn div_spec(self, rhs: S) -> Expr<V3<S>> {
        arbitrary()
    }
}

impl<'a, S: ArithmeticScalar> std::ops::Div<S> for &'a Expr<V3<S>> {
    type Output = Expr<V3<S>>;

    fn div(self, rhs: S) -> (r: Expr<V3<S>>)
        ensures
            r@ == binary_view(BinOp::Div, (*self)@, rhs.spec_lit()),
    {
        Expr::new(binary(BinOp::Div, copy_expr(self.erased()), rhs.to_erased()))
    }
}

impl<'a, S: ArithmeticScalar> vstd::std_specs::ops::DivSpecImpl<S> for &'a Expr<V3<S>> {
    open spec fn obeys_div_spec() -> bool {
        false
    }

    open spec fn div_req(self, rhs: S) -> bool {
        true
    }

    open spec fn div_spec(self, rhs: S) -> Expr<V3<S>> {
        arbitrary()
    }
}

impl<S: ArithmeticScalar> std::ops::Div<Expr<S>> for Expr<V4<S>> {
    type Output = Expr<V4<S>>;

    fn div(self, rhs: Expr<S>) -> (r: Expr<V4<S>>)
        ensures
            r@ == binary_view(BinOp::Div, self@, rhs@),
    {
        Expr::new(binary(BinOp::Div, self.into_erased(), rhs.into_erased()))
    }
}

impl<S: ArithmeticScalar> vstd::std_specs::ops::DivSpecImpl<Expr<S>> for Expr<V4<S>> {
    open spec fn obeys_div_spec() -> bool {
        false
    }

    open spec fn div_req(self, rhs: Expr<S>) -> bool {
        true
    }

    open spec fn div_spec(self, rhs: Expr<S>) -> Expr<V4<S>> {
        arbitrary()
    }
}

impl<'a, S: ArithmeticScalar> std::ops::Div<&'a Expr<S>> for Expr<V4<S>> {
    type Output = Expr<V4<S>>;

    fn div(self, rhs: &'a Expr<S>) -> (r: Expr<V4<S>>)
        ensures
            r@ == binary_view(BinOp::Div, self@, (*rhs)@),
    {
        Expr::new(binary(BinOp::Div, self.into_erased(), copy_expr(rhs.erased())))
    }
}

impl<'a, S: ArithmeticScalar> vstd::std_specs::ops::DivSpecImpl<&'a Expr<S>> for Expr<V4<S>> {
    open spec fn obeys_div_spec() -> bool {
        false
    }

    open spec fn div_req(self, rhs: &'a Expr<S>) -> bool {
        true
    }

    open spec fn div_spec(self, rhs: &'a Expr<S>) -> Expr<V4<S>> {
        arbitrary()
    }
}

impl<'a, S: ArithmeticScalar> std::ops::Div<Expr<S>> for &'a Expr<V4<S>> {
    type Output = Expr<V4<S>>;

    fn div(self, rhs: Expr<S>) -> (r: Expr<V4<S>>)
        ensures
            r@ == binary_view(BinOp::Div, (*self)@, rhs@),
    {
        Expr::new(binary(BinOp::Div, copy_expr(self.erased()), rhs.into_erased()))
    }
}

impl<'a, S: ArithmeticScalar> vstd::std_specs::ops::DivSpecImpl<Expr<S>> for &'a Expr<V4<S>> {
    open spec fn obeys_div_spec() -> bool {
        false
    }

    open spec fn div_req(self, rhs: Expr<S>) -> bool {
        true
    }

    open spec fn div_spec(self, rhs: Expr<S>) -> Expr<V4<S>> {
        arbitrary()
    }
}

impl<'a, S: ArithmeticScalar> std::ops::Div<&'a Expr<S>> for &'a Expr<V4<S>> {
    type Output = Expr<V4<S>>;

    fn div(self, rhs: &'a Expr<S>) -> (r: Expr<V4<S>>)
        ensures
            r@ == binary_view(BinOp::Div, (*self)@, (*rhs)@),
    {
        Expr::new(binary(BinOp::Div, copy_expr(self.erased()), copy_expr(rhs.erased())))
    }
}

impl<'a, S: ArithmeticScalar> vstd::std_specs::ops::DivSpecImpl<&'a Expr<S>> for &'a Expr<V4<S>> {
    open spec fn obeys_div_spec() -> bool {
        false
    }

    open spec fn div_req(self, rhs: &'a Expr<S>) -> bool {
        true
    }

    open spec fn div_spec(self, rhs: &'a Expr<S>) -> Expr<V4<S>> {
        arbitrary()
    }
}

impl<S: ArithmeticScalar> std::ops::Div<S> for Expr<V4<S>> {
    type Output = Expr<V4<S>>;

    fn div(self, rhs: S) -> (r: Expr<V4<S>>)
        ensures
            r@ == binary_view(BinOp::Div, self@, rhs.spec_lit()),
    {
        Expr::new(binary(BinOp::Div, self.into_erased(), rhs.to_erased()))
    }
}

impl<S: ArithmeticScalar> vstd::std_specs::ops::DivSpecImpl<S> for Expr<V4<S>> {
    open spec fn obeys_div_spec() -> bool {
        false
    }

    open spec fn div_req(self, rhs: S) -> bool {
        true
    }

    open spec fn div_spec(self, rhs: S) -> Expr<V4<S>> {
        arbitrary()
    }
}

impl<'a, S: ArithmeticScalar> std::ops::Div<S> for &'a Expr<V4<S>> {
    type Output = Expr<V4<S>>;

    fn div(self, rhs: S) -> (r: Expr<V4<S>>)
        ensures
            r@ == binary_view(BinOp::Div, (*self)@, rhs.spec_lit()),
    {
        Expr::new(binary(BinOp::Div, copy_expr(self.erased()), rhs.to_erased()))
    }
}

impl<'a, S: ArithmeticScalar> vstd::std_specs::ops::DivSpecImpl<S> for &'a Expr<V4<S>> {
    open spec fn obeys_div_spec() -> bool {
        false
    }

    open spec fn div_req(self, rhs: S) -> bool {
        true
    }

    open spec fn div_spec(self, rhs: S) -> Expr<V4<S>> {
        arbitrary()
    }
}

impl<T: FloatArithmetic> std::ops::Rem<Expr<T>> for Expr<T> {
    type Output = Expr<T>;

    fn rem(self, rhs: Expr<T>) -> (r: Expr<T>)
        ensures
            r@ == binary_view(BinOp::Rem, self@, rhs@),
    {
        Expr::new(binary(BinOp::Rem, self.into_erased(), rhs.into_erased()))
    }
}

impl<T: FloatArithmetic> vstd::std_specs::ops::RemSpecImpl<Expr<T>> for Expr<T> {
    open spec fn obeys_rem_spec() -> bool {
        false
    }

    open spec fn rem_req(self, rhs: Expr<T>) -> bool {
        true
    }

    open spec fn rem_spec(self, rhs: Expr<T>) -> Expr<T> {
        arbitrary()
    }
}

impl<'a, T: FloatArithmetic> std::ops::Rem<&'a Expr<T>> for Expr<T> {
    type Output = Expr<T>;

    fn rem(self, rhs: &'a Expr<T>) -> (r: Expr<T>)
        ensures
            r@ == binary_view(BinOp::Rem, self@, (*rhs)@),
    {
        Expr::new(binary(BinOp::Rem, self.into_erased(), copy_expr(rhs.erased())))
    }
}

impl<'a, T: FloatArithmetic> vstd::std_specs::ops::RemSpecImpl<&'a Expr<T>> for Expr<T> {
    open spec fn obeys_rem_spec() -> bool {
        false
    }

    open spec fn rem_req(self, rhs: &'a Expr<T>) -> bool {
        true
    }

    open spec fn rem_spec(self, rhs: &'a Expr<T>) -> Expr<T> {
        arbitrary()
    }
}

impl<'a, T: FloatArithmetic> std::ops::Rem<Expr<T>> for &'a Expr<T> {
    type Output = Expr<T>;

    fn rem(self, rhs: Expr<T>) -> (r: Expr<T>)
        ensures
            r@ == binary_view(BinOp::Rem, (*self)@, rhs@),
    {
        Expr::new(binary(BinOp::Rem, copy_expr(self.erased()), rhs.into_erased()))
    }
}

impl<'a, T: FloatArithmetic> vstd::std_specs::ops::RemSpecImpl<Expr<T>> for &'a Expr<T> {
    open spec fn obeys_rem_spec() -> bool {
        false
    }

    open spec fn rem_req(self, rhs: Expr<T>) -> bool {
        true
    }

    open spec fn rem_spec(self, rhs: Expr<T>) -> Expr<T> {
        arbitrary()
    }
}

impl<'a, T: FloatArithmetic> std::ops::Rem<&'a Expr<T>> for &'a Expr<T> {
    type Output = Expr<T>;

    fn rem(self, rhs: &'a Expr<T>) -> (r: Expr<T>)
        ensures
            r@ == binary_view(BinOp::Rem, (*self)@, (*rhs)@),
    {
        Expr::new(binary(BinOp::Rem, copy_expr(self.erased()), copy_expr(rhs.erased())))
    }
}

impl<'a, T: FloatArithmetic> vstd::std_specs::ops::RemSpecImpl<&'a Expr<T>> for &'a Expr<T> {
    open spec fn obeys_rem_spec() -> bool {
        false
    }

    open spec fn rem_req(self, rhs: &'a Expr<T>) -> bool {
        true
    }

    open spec fn rem_spec(self, rhs: &'a Expr<T>) -> Expr<T> {
        arbitrary()
    }
}

impl<T: FloatArithmetic> std::ops::Rem<T> for Expr<T> {
    type Output = Expr<T>;

    fn rem(self, rhs: T) -> (r: Expr<T>)
        ensures
            r@ == binary_view(BinOp::Rem, self@, rhs.spec_lit()),
    {
        Expr::new(binary(BinOp::Rem, self.into_erased(), rhs.to_erased()))
    }
}

impl<T: FloatArithmetic> vstd::std_specs::ops::RemSpecImpl<T> for Expr<T> {
    open spec fn obeys_rem_spec() -> bool {
        false
    }

    open spec fn rem_req(self, rhs: T) -> bool {
        true
    }

    open spec fn rem_spec(self, rhs: T) -> Expr<T> {
        arbitrary()
    }
}

impl<'a, T: FloatArithmetic> std::ops::Rem<T> for &'a Expr<T> {
    type Output = Expr<T>;

    fn rem(self, rhs: T) -> (r: Expr<T>)
        ensures
            r@ == binary_view(BinOp::Rem, (*self)@, rhs.spec_lit()),
    {
        Expr::new(binary(BinOp::Rem, copy_expr(self.erased()), rhs.to_erased()))
    }
}

impl<'a, T: FloatArithmetic> vstd::std_specs::ops::RemSpecImpl<T> for &'a Expr<T> {
    open spec fn obeys_rem_spec() -> bool {
        false
    }

    open spec fn rem_req(self, rhs: T) -> bool {
        true
    }

    open spec fn rem_spec(self, rhs: T) -> Expr<T> {
        arbitrary()
    }
}

impl<S: FloatScalar> std::ops::Rem<Expr<S>> for Expr<V2<S>> {
    type Output = Expr<V2<S>>;

    fn rem(self, rhs: Expr<S>) -> (r: Expr<V2<S>>)
        ensures
            r@ == binary_view(BinOp::Rem, self@, rhs@),
    {
        Expr::new(binary(BinOp::Rem, self.into_erased(), rhs.into_erased()))
    }
}

impl<S: FloatScalar> vstd::std_specs::ops::RemSpecImpl<Expr<S>> for Expr<V2<S>> {
    open spec fn obeys_rem_spec() -> bool {
        false
    }

    open spec fn rem_req(self, rhs: Expr<S>) -> bool {
        true
    }

    open spec fn rem_spec(self, rhs: Expr<S>) -> Expr<V2<S>> {
        arbitrary()
    }
}

impl<'a, S: FloatScalar> std::ops::Rem<&'a Expr<S>> for Expr<V2<S>> {
    type Output = Expr<V2<S>>;

    fn rem(self, rhs: &'a Expr<S>) -> (r: Expr<V2<S>>)
        ensures
            r@ == binary_view(BinOp::Rem, self@, (*rhs)@),
    {
        Expr::new(binary(BinOp::Rem, self.into_erased(), copy_expr(rhs.erased())))
    }
}

impl<'a, S: FloatScalar> vstd::std_specs::ops::RemSpecImpl<&'a Expr<S>> for Expr<V2<S>> {
    open spec fn obeys_rem_spec() -> bool {
        false
    }

    open spec fn rem_req(self, rhs: &'a Expr<S>) -> bool {
        true
    }

    open spec fn rem_spec(self, rhs: &'a Expr<S>) -> Expr<V2<S>> {
        arbitrary()
    }
}

impl<'a, S: FloatScalar> std::ops::Rem<Expr<S>> for &'a Expr<V2<S>> {
    type Output = Expr<V2<S>>;

    fn rem(self, rhs: Expr<S>) -> (r: Expr<V2<S>>)
        ensures
            r@ == binary_view(BinOp::Rem, (*self)@, rhs@),
    {
        Expr::new(binary(BinOp::Rem, copy_expr(self.erased()), rhs.into_erased()))
    }
}

impl<'a, S: FloatScalar> vstd::std_specs::ops::RemSpecImpl<Expr<S>> for &'a Expr<V2<S>> {
    open spec fn obeys_rem_spec() -> bool {
        false
    }

    open spec fn rem_req(self, rhs: Expr<S>) -> bool {
        true
    }

    open spec fn rem_spec(self, rhs: Expr<S>) -> Expr<V2<S>> {
        arbitrary()
    }
}

impl<'a, S: FloatScalar> std::ops::Rem<&'a Expr<S>> for &'a Expr<V2<S>> {
    type Output = Expr<V2<S>>;

    fn rem(self, rhs: &'a Expr<S>) -> (r: Expr<V2<S>>)
        ensures
            r@ == binary_view(BinOp::Rem, (*self)@, (*rhs)@),
    {
        Expr::new(binary(BinOp::Rem, copy_expr(self.erased()), copy_expr(rhs.erased())))
    }
}

impl<'a, S: FloatScalar> vstd::std_specs::ops::RemSpecImpl<&'a Expr<S>> for &'a Expr<V2<S>> {
    open spec fn obeys_rem_spec() -> bool {
        false
    }

    open spec fn rem_req(self, rhs: &'a Expr<S>) -> bool {
        true
    }

    open spec fn rem_spec(self, rhs: &'a Expr<S>) -> Expr<V2<S>> {
        arbitrary()
    }
}

impl<S: FloatScalar> std::ops::Rem<S> for Expr<V2<S>> {
    type Output = Expr<V2<S>>;

    fn rem(self, rhs: S) -> (r: Expr<V2<S>>)
        ensures
            r@ == binary_view(BinOp::Rem, self@, rhs.spec_lit()),
    {
        Expr::new(binary(BinOp::Rem, self.into_erased(), rhs.to_erased()))
    }
}

impl<S: FloatScalar> vstd::std_specs::ops::RemSpecImpl<S> for Expr<V2<S>> {
    open spec fn obeys_rem_spec() -> bool {
        false
    }

    open spec fn rem_req(self, rhs: S) -> bool {
        true
    }

    open spec fn rem_spec(self, rhs: S) -> Expr<V2<S>> {
        arbitrary()
    }
}

impl<'a, S: FloatScalar> std::ops::Rem<S> for &'a Expr<V2<S>> {
    type Output = Expr<V2<S>>;

    fn rem(self, rhs: S) -> (r: Expr<V2<S>>)
        ensures
            r@ == binary_view(BinOp::Rem, (*self)@, rhs.spec_lit()),
    {
        Expr::new(binary(BinOp::Rem, copy_expr(self.erased()), rhs.to_erased()))
    }
}

impl<'a, S: FloatScalar> vstd::std_specs::ops::RemSpecImpl<S> for &'a Expr<V2<S>> {
    open spec fn obeys_rem_spec() -> bool {
        false
    }

    open spec fn rem_req(self, rhs: S) -> bool {
        true
    }

    open spec fn rem_spec(self, rhs: S) -> Expr<V2<S>> {
        arbitrary()
    }
}

impl<S: FloatScalar> std::ops::Rem<Expr<S>> for Expr<V3<S>> {
    type Output = Expr<V3<S>>;

    fn rem(self, rhs: Expr<S>) -> (r: Expr<V3<S>>)
        ensures
            r@ == binary_view(BinOp::Rem, self@, rhs@),
    {
        Expr::new(binary(BinOp::Rem, self.into_erased(), rhs.into_erased()))
    }
}

impl<S: FloatScalar> vstd::std_specs::ops::RemSpecImpl<Expr<S>> for Expr<V3<S>> {
    open spec fn obeys_rem_spec() -> bool {
        false
    }

    open spec fn rem_req(self, rhs: Expr<S>) -> bool {
        true
    }

    open spec fn rem_spec(self, rhs: Expr<S>) -> Expr<V3<S>> {
        arbitrary()
    }
}

impl<'a, S: FloatScalar> std::ops::Rem<&'a Expr<S>> for Expr<V3<S>> {
    type Output = Expr<V3<S>>;

    fn rem(self, rhs: &'a Expr<S>) -> (r: Expr<V3<S>>)
        ensures
            r@ == binary_view(BinOp::Rem, self@, (*rhs)@),
    {
        Expr::new(binary(BinOp::Rem, self.into_erased(), copy_expr(rhs.erased())))
    }
}

impl<'a, S: FloatScalar> vstd::std_specs::ops::RemSpecImpl<&'a Expr<S>> for Expr<V3<S>> {
    open spec fn obeys_rem_spec() -> bool {
        false
    }

    open spec fn rem_req(self, rhs: &'a Expr<S>) -> bool {
        true
    }

    open spec fn rem_spec(self, rhs: &'a Expr<S>) -> Expr<V3<S>> {
        arbitrary()
    }
}

impl<'a, S: FloatScalar> std::ops::Rem<Expr<S>> for &'a Expr<V3<S>> {
    type Output = Expr<V3<S>>;

    fn rem(self, rhs: Expr<S>) -> (r: Expr<V3<S>>)
        ensures
            r@ == binary_view(BinOp::Rem, (*self)@, rhs@),
    {
        Expr::new(binary(BinOp::Rem, copy_expr(self.erased()), rhs.into_erased()))
    }
}

impl<'a, S: FloatScalar> vstd::std_specs::ops::RemSpecImpl<Expr<S>> for &'a Expr<V3<S>> {
    open spec fn obeys_rem_spec() -> bool {
        false
    }

    open spec fn rem_req(self, rhs: Expr<S>) -> bool {
        true
    }

    open spec fn rem_spec(self, rhs: Expr<S>) -> Expr<V3<S>> {
        arbitrary()
    }
}

impl<'a, S: FloatScalar> std::ops::Rem<&'a Expr<S>> for &'a Expr<V3<S>> {
    type Output = Expr<V3<S>>;

    fn rem(self, rhs: &'a Expr<S>) -> (r: Expr<V3<S>>)
        ensures
            r@ == binary_view(BinOp::Rem, (*self)@, (*rhs)@),
    {
        Expr::new(binary(BinOp::Rem, copy_expr(self.erased()), copy_expr(rhs.erased())))
    }
}

impl<'a, S: FloatScalar> vstd::std_specs::ops::RemSpecImpl<&'a Expr<S>> for &'a Expr<V3<S>> {
    open spec fn obeys_rem_spec() -> bool {
        false
    }

    open spec fn rem_req(self, rhs: &'a Expr<S>) -> bool {
        true
    }

    open spec fn rem_spec(self, rhs: &'a Expr<S>) -> Expr<V3<S>> {
        arbitrary()
    }
}

impl<S: FloatScalar> std::ops::Rem<S> for Expr<V3<S>> {
    type Output = Expr<V3<S>>;

    fn rem(self, rhs: S) -> (r: Expr<V3<S>>)
        ensures
            r@ == binary_view(BinOp::Rem, self@, rhs.spec_lit()),
    {
        Expr::new(binary(BinOp::Rem, self.into_erased(), rhs.to_erased()))
    }
}

impl<S: FloatScalar> vstd::std_specs::ops::RemSpecImpl<S> for Expr<V3<S>> {
    open spec fn obeys_rem_spec() -> bool {
        false
    }

    open spec fn rem_req(self, rhs: S) -> bool {
        true
    }

    open spec fn rem_spec(self, rhs: S) -> Expr<V3<S>> {
        arbitrary()
    }
}

impl<'a, S: FloatScalar> std::ops::Rem<S> for &'a Expr<V3<S>> {
    type Output = Expr<V3<S>>;

    fn rem(self, rhs: S) -> (r: Expr<V3<S>>)
        ensures
            r@ == binary_view(BinOp::Rem, (*self)@, rhs.spec_lit()),
    {
        Expr::new(binary(BinOp::Rem, copy_expr(self.erased()), rhs.to_erased()))
    }
}

impl<'a, S: FloatScalar> vstd::std_specs::ops::RemSpecImpl<S> for &'a Expr<V3<S>> {
    open spec fn obeys_rem_spec() -> bool {
        false
    }

    open spec fn rem_req(self, rhs: S) -> bool {
        true
    }

    open spec fn rem_spec(self, rhs: S) -> Expr<V3<S>> {
        arbitrary()
    }
}

impl<S: FloatScalar> std::ops::Rem<Expr<S>> for Expr<V4<S>> {
    type Output = Expr<V4<S>>;

    fn rem(self, rhs: Expr<S>) -> (r: Expr<V4<S>>)
        ensures
            r@ == binary_view(BinOp::Rem, self@, rhs@),
    {
        Expr::new(binary(BinOp::Rem, self.into_erased(), rhs.into_erased()))
    }
}

impl<S: FloatScalar> vstd::std_specs::ops::RemSpecImpl<Expr<S>> for Expr<V4<S>> {
    open spec fn obeys_rem_spec() -> bool {
        false
    }

    open spec fn rem_req(self, rhs: Expr<S>) -> bool {
        true
    }

    open spec fn rem_spec(self, rhs: Expr<S>) -> Expr<V4<S>> {
        arbitrary()
    }
}

impl<'a, S: FloatScalar> std::ops::Rem<&'a Expr<S>> for Expr<V4<S>> {
    type Output = Expr<V4<S>>;

    fn rem(self, rhs: &'a Expr<S>) -> (r: Expr<V4<S>>)
        ensures
            r@ == binary_view(BinOp::Rem, self@, (*rhs)@),
    {
        Expr::new(binary(BinOp::Rem, self.into_erased(), copy_expr(rhs.erased())))
    }
}

impl<'a, S: FloatScalar> vstd::std_specs::ops::RemSpecImpl<&'a Expr<S>> for Expr<V4<S>> {
    open spec fn obeys_rem_spec() -> bool {
        false
    }

    open spec fn rem_req(self, rhs: &'a Expr<S>) -> bool {
        true
    }

    open spec fn rem_spec(self, rhs: &'a Expr<S>) -> Expr<V4<S>> {
        arbitrary()
    }
}

impl<'a, S: FloatScalar> std::ops::Rem<Expr<S>> for &'a Expr<V4<S>> {
    type Output = Expr<V4<S>>;

    fn rem(self, rhs: Expr<S>) -> (r: Expr<V4<S>>)
        ensures
            r@ == binary_view(BinOp::Rem, (*self)@, rhs@),
    {
        Expr::new(binary(BinOp::Rem, copy_expr(self.erased()), rhs.into_erased()))
    }
}

impl<'a, S: FloatScalar> vstd::std_specs::ops::RemSpecImpl<Expr<S>> for &'a Expr<V4<S>> {
    open spec fn obeys_rem_spec() -> bool {
        false
    }

    open spec fn rem_req(self, rhs: Expr<S>) -> bool {
        true
    }

    open spec fn rem_spec(self, rhs: Expr<S>) -> Expr<V4<S>> {
        arbitrary()
    }
}

impl<'a, S: FloatScalar> std::ops::Rem<&'a Expr<S>> for &'a Expr<V4<S>> {
    type Output = Expr<V4<S>>;

    fn rem(self, rhs: &'a Expr<S>) -> (r: Expr<V4<S>>)
        ensures
            r@ == binary_view(BinOp::Rem, (*self)@, (*rhs)@),
    {
        Expr::new(binary(BinOp::Rem, copy_expr(self.erased()), copy_expr(rhs.erased())))
    }
}

impl<'a, S: FloatScalar> vstd::std_specs::ops::RemSpecImpl<&'a Expr<S>> for &'a Expr<V4<S>> {
    open spec fn obeys_rem_spec() -> bool {
        false
    }

    open spec fn rem_req(self, rhs: &'a Expr<S>) -> bool {
        true
    }

    open spec fn rem_spec(self, rhs: &'a Expr<S>) -> Expr<V4<S>> {
        arbitrary()
    }
}

impl<S: FloatScalar> std::ops::Rem<S> for Expr<V4<S>> {
    type Output = Expr<V4<S>>;

    fn rem(self, rhs: S) -> (r: Expr<V4<S>>)
        ensures
            r@ == binary_view(BinOp::Rem, self@, rhs.spec_lit()),
    {
        Expr::new(binary(BinOp::Rem, self.into_erased(), rhs.to_erased()))
    }
}

impl<S: FloatScalar> vstd::std_specs::ops::RemSpecImpl<S> for Expr<V4<S>> {
    open spec fn obeys_rem_spec() -> bool {
        false
    }

    open spec fn rem_req(self, rhs: S) -> bool {
        true
    }

    open spec fn rem_spec(self, rhs: S) -> Expr<V4<S>> {
        arbitrary()
    }
}

impl<'a, S: FloatScalar> std::ops::Rem<S> for &'a Expr<V4<S>> {
    type Output = Expr<V4<S>>;

    fn rem(self, rhs: S) -> (r: Expr<V4<S>>)
        ensures
            r@ == binary_view(BinOp::Rem, (*self)@, rhs.spec_lit()),
    {
        Expr::new(binary(BinOp::Rem, copy_expr(self.erased()), rhs.to_erased()))
    }
}

impl<'a, S: FloatScalar> vstd::std_specs::ops::RemSpecImpl<S> for &'a Expr<V4<S>> {
    open spec fn obeys_rem_spec() -> bool {
        false
    }

    open spec fn rem_req(self, rhs: S) -> bool {
        true
    }

    open spec fn rem_spec(self, rhs: S) -> Expr<V4<S>> {
        arbitrary()
    }
}

impl<T: Logical> std::ops::BitOr<Expr<T>> for Expr<T> {
    type Output = Expr<T>;

    fn bitor(self, rhs: Expr<T>) -> (r: Expr<T>)
        ensures
            r@ == binary_view(BinOp::BitOr, self@, rhs@),
    {
        Expr::new(binary(BinOp::BitOr, self.into_erased(), rhs.into_erased()))
    }
}

impl<T: Logical> vstd::std_specs::ops::BitOrSpecImpl<Expr<T>> for Expr<T> {
    open spec fn obeys_bitor_spec() -> bool {
        false
    }

    open spec fn bitor_req(self, rhs: Expr<T>) -> bool {
        true
    }

    open spec fn bitor_spec(self, rhs: Expr<T>) -> Expr<T> {
        arbitrary()
    }
}

impl<'a, T: Logical> std::ops::BitOr<&'a Expr<T>> for Expr<T> {
    type Output = Expr<T>;

    fn bitor(self, rhs: &'a Expr<T>) -> (r: Expr<T>)
        ensures
            r@ == binary_view(BinOp::BitOr, self@, (*rhs)@),
    {
        Expr::new(binary(BinOp::BitOr, self.into_erased(), copy_expr(rhs.erased())))
    }
}

impl<'a, T: Logical> vstd::std_specs::ops::BitOrSpecImpl<&'a Expr<T>> for Expr<T> {
    open spec fn obeys_bitor_spec() -> bool {
        false
    }

    open spec fn bitor_req(self, rhs: &'a Expr<T>) -> bool {
        true
    }

    open spec fn bitor_spec(self, rhs: &'a Expr<T>) -> Expr<T> {
        arbitrary()
    }
}

impl<'a, T: Logical> std::ops::BitOr<Expr<T>> for &'a Expr<T> {
    type Output = Expr<T>;

    fn bitor(self, rhs: Expr<T>) -> (r: Expr<T>)
        ensures
            r@ == binary_view(BinOp::BitOr, (*self)@, rhs@),
    {
        Expr::new(binary(BinOp::BitOr, copy_expr(self.erased()), rhs.into_erased()))
    }
}

impl<'a, T: Logical> vstd::std_specs::ops::BitOrSpecImpl<Expr<T>> for &'a Expr<T> {
    open spec fn obeys_bitor_spec() -> bool {
        false
    }

    open spec fn bitor_req(self, rhs: Expr<T>) -> bool {
        true
    }

    open spec fn bitor_spec(self, rhs: Expr<T>) -> Expr<T> {
        arbitrary()
    }
}

impl<'a, T: Logical> std::ops::BitOr<&'a Expr<T>> for &'a Expr<T> {
    type Output = Expr<T>;

    fn bitor(self, rhs: &'a Expr<T>) -> (r: Expr<T>)
        ensures
            r@ == binary_view(BinOp::BitOr, (*self)@, (*rhs)@),
    {
        Expr::new(binary(BinOp::BitOr, copy_expr(self.erased()), copy_expr(rhs.erased())))
    }
}

impl<'a, T: Logical> vstd::std_specs::ops::BitOrSpecImpl<&'a Expr<T>> for &'a Expr<T> {
    open spec fn obeys_bitor_spec() -> bool {
        false
    }

    open spec fn bitor_req(self, rhs: &'a Expr<T>) -> bool {
        true
    }

    open spec fn bitor_spec(self, rhs: &'a Expr<T>) -> Expr<T> {
        arbitrary()
    }
}

impl<T: Logical> std::ops::BitOr<T> for Expr<T> {
    type Output = Expr<T>;

    fn bitor(self, rhs: T) -> (r: Expr<T>)
        ensures
            r@ == binary_view(BinOp::BitOr, self@, rhs.spec_lit()),
    {
        Expr::new(binary(BinOp::BitOr, self.into_erased(), rhs.to_erased()))
    }
}

impl<T: Logical> vstd::std_specs::ops::BitOrSpecImpl<T> for Expr<T> {
    open spec fn obeys_bitor_spec() -> bool {
        false
    }

    open spec fn bitor_req(self, rhs: T) -> bool {
        true
    }

    open spec fn bitor_spec(self, rhs: T) -> Expr<T> {
        arbitrary()
    }
}

impl<'a, T: Logical> std::ops::BitOr<T> for &'a Expr<T> {
    type Output = Expr<T>;

    fn bitor(self, rhs: T) -> (r: Expr<T>)
        ensures
            r@ == binary_view(BinOp::BitOr, (*self)@, rhs.spec_lit()),
    {
        Expr::new(binary(BinOp::BitOr, copy_expr(self.erased()), rhs.to_erased()))
    }
}

impl<'a, T: Logical> vstd::std_specs::ops::BitOrSpecImpl<T> for &'a Expr<T> {
    open spec fn obeys_bitor_spec() -> bool {
        false
    }

    open spec fn bitor_req(self, rhs: T) -> bool {
        true
    }

    open spec fn bitor_spec(self, rhs: T) -> Expr<T> {
        arbitrary()
    }
}

impl<S: LogicalScalar> std::ops::BitOr<Expr<S>> for Expr<V2<S>> {
    type Output = Expr<V2<S>>;

    fn bitor(self, rhs: Expr<S>) -> (r: Expr<V2<S>>)
        ensures
            r@ == binary_view(BinOp::BitOr, self@, rhs@),
    {
        Expr::new(binary(BinOp::BitOr, self.into_erased(), rhs.into_erased()))
    }
}

impl<S: LogicalScalar> vstd::std_specs::ops::BitOrSpecImpl<Expr<S>> for Expr<V2<S>> {
    open spec fn obeys_bitor_spec() -> bool {
        false
    }

    open spec fn bitor_req(self, rhs: Expr<S>) -> bool {
        true
    }

    open spec fn bitor_spec(self, rhs: Expr<S>) -> Expr<V2<S>> {
        arbitrary()
    }
}

impl<'a, S: LogicalScalar> std::ops::BitOr<&'a Expr<S>> for Expr<V2<S>> {
    type Output = Expr<V2<S>>;

    fn bitor(self, rhs: &'a Expr<S>) -> (r: Expr<V2<S>>)
        ensures
            r@ == binary_view(BinOp::BitOr, self@, (*rhs)@),
    {
        Expr::new(binary(BinOp::BitOr, self.into_erased(), copy_expr(rhs.erased())))
    }
}

impl<'a, S: LogicalScalar> vstd::std_specs::ops::BitOrSpecImpl<&'a Expr<S>> for Expr<V2<S>> {
    open spec fn obeys_bitor_spec() -> bool {
        false
    }

    open spec fn bitor_req(self, rhs: &'a Expr<S>) -> bool {
        true
    }

    open spec fn bitor_spec(self, rhs: &'a Expr<S>) -> Expr<V2<S>> {
        arbitrary()
    }
}

impl<'a, S: LogicalScalar> std::ops::BitOr<Expr<S>> for &'a Expr<V2<S>> {
    type Output = Expr<V2<S>>;

    fn bitor(self, rhs: Expr<S>) -> (r: Expr<V2<S>>)
        ensures
            r@ == binary_view(BinOp::BitOr, (*self)@, rhs@),
    {
        Expr::new(binary(BinOp::BitOr, copy_expr(self.erased()), rhs.into_erased()))
    }
}

impl<'a, S: LogicalScalar> vstd::std_specs::ops::BitOrSpecImpl<Expr<S>> for &'a Expr<V2<S>> {
    open spec fn obeys_bitor_spec() -> bool {
        false
    }

    open spec fn bitor_req(self, rhs: Expr<S>) -> bool {
        true
    }

    open spec fn bitor_spec(self, rhs: Expr<S>) -> Expr<V2<S>> {
        arbitrary()
    }
}

impl<'a, S: LogicalScalar> std::ops::BitOr<&'a Expr<S>> for &'a Expr<V2<S>> {
    type Output = Expr<V2<S>>;

    fn bitor(self, rhs: &'a Expr<S>) -> (r: Expr<V2<S>>)
        ensures
            r@ == binary_view(BinOp::BitOr, (*self)@, (*rhs)@),
    {
        Expr::new(binary(BinOp::BitOr, copy_expr(self.erased()), copy_expr(rhs.erased())))
    }
}

impl<'a, S: LogicalScalar> vstd::std_specs::ops::BitOrSpecImpl<&'a Expr<S>> for &'a Expr<V2<S>> {
    open spec fn obeys_bitor_spec() -> bool {
        false
    }

    open spec fn bitor_req(self, rhs: &'a Expr<S>) -> bool {
        true
    }

    open spec fn bitor_spec(self, rhs: &'a Expr<S>) -> Expr<V2<S>> {
        arbitrary()
    }
}

impl<S: LogicalScalar> std::ops::BitOr<S> for Expr<V2<S>> {
    type Output = Expr<V2<S>>;

    fn bitor(self, rhs: S) -> (r: Expr<V2<S>>)
        ensures
            r@ == binary_view(BinOp::BitOr, self@, rhs.spec_lit()),
    {
        Expr::new(binary(BinOp::BitOr, self.into_erased(), rhs.to_erased()))
    }
}

impl<S: LogicalScalar> vstd::std_specs::ops::BitOrSpecImpl<S> for Expr<V2<S>> {
    open spec fn obeys_bitor_spec() -> bool {
        false
    }

    open spec fn bitor_req(self, rhs: S) -> bool {
        true
    }

    open spec fn bitor_spec(self, rhs: S) -> Expr<V2<S>> {
        arbitrary()
    }
}

impl<'a, S: LogicalScalar> std::ops::BitOr<S> for &'a Expr<V2<S>> {
    type Output = Expr<V2<S>>;

    fn bitor(self, rhs: S) -> (r: Expr<V2<S>>)
        ensures
            r@ == binary_view(BinOp::BitOr, (*self)@, rhs.spec_lit()),
    {
        Expr::new(binary(BinOp::BitOr, copy_expr(self.erased()), rhs.to_erased()))
    }
}

impl<'a, S: LogicalScalar> vstd::std_specs::ops::BitOrSpecImpl<S> for &'a Expr<V2<S>> {
    open spec fn obeys_bitor_spec() -> bool {
        false
    }

    open spec fn bitor_req(self, rhs: S) -> bool {
        true
    }

    open spec fn bitor_spec(self, rhs: S) -> Expr<V2<S>> {
        arbitrary()
    }
}

impl<S: LogicalScalar> std::ops::BitOr<Expr<S>> for Expr<V3<S>> {
    type Output = Expr<V3<S>>;

    fn bitor(self, rhs: Expr<S>) -> (r: Expr<V3<S>>)
        ensures
            r@ == binary_view(BinOp::BitOr, self@, rhs@),
    {
        Expr::new(binary(BinOp::BitOr, self.into_erased(), rhs.into_erased()))
    }
}

impl<S: LogicalScalar> vstd::std_specs::ops::BitOrSpecImpl<Expr<S>> for Expr<V3<S>> {
    open spec fn obeys_bitor_spec() -> bool {
        false
    }

    open spec fn bitor_req(self, rhs: Expr<S>) -> bool {
        true
    }

    open spec fn bitor_spec(self, rhs: Expr<S>) -> Expr<V3<S>> {
        arbitrary()
    }
}

impl<'a, S: LogicalScalar> std::ops::BitOr<&'a Expr<S>> for Expr<V3<S>> {
    type Output = Expr<V3<S>>;

    fn bitor(self, rhs: &'a Expr<S>) -> (r: Expr<V3<S>>)
        ensures
            r@ == binary_view(BinOp::BitOr, self@, (*rhs)@),
    {
        Expr::new(binary(BinOp::BitOr, self.into_erased(), copy_expr(rhs.erased())))
    }
}

impl<'a, S: LogicalScalar> vstd::std_specs::ops::BitOrSpecImpl<&'a Expr<S>> for Expr<V3<S>> {
    open spec fn obeys_bitor_spec() -> bool {
        false
    }

    open spec fn bitor_req(self, rhs: &'a Expr<S>) -> bool {
        true
    }

    open spec fn bitor_spec(self, rhs: &'a Expr<S>) -> Expr<V3<S>> {
        arbitrary()
    }
}

impl<'a, S: LogicalScalar> std::ops::BitOr<Expr<S>> for &'a Expr<V3<S>> {
    type Output = Expr<V3<S>>;

    fn bitor(self, rhs: Expr<S>) -> (r: Expr<V3<S>>)
        ensures
            r@ == binary_view(BinOp::BitOr, (*self)@, rhs@),
    {
        Expr::new(binary(BinOp::BitOr, copy_expr(self.erased()), rhs.into_erased()))
    }
}

impl<'a, S: LogicalScalar> vstd::std_specs::ops::BitOrSpecImpl<Expr<S>> for &'a Expr<V3<S>> {
    open spec fn obeys_bitor_spec() -> bool {
        false
    }

    open spec fn bitor_req(self, rhs: Expr<S>) -> bool {
        true
    }

    open spec fn bitor_spec(self, rhs: Expr<S>) -> Expr<V3<S>> {
        arbitrary()
    }
}

impl<'a, S: LogicalScalar> std::ops::BitOr<&'a Expr<S>> for &'a Expr<V3<S>> {
    type Output = Expr<V3<S>>;

    fn bitor(self, rhs: &'a Expr<S>) -> (r: Expr<V3<S>>)
        ensures
            r@ == binary_view(BinOp::BitOr, (*self)@, (*rhs)@),
    {
        Expr::new(binary(BinOp::BitOr, copy_expr(self.erased()), copy_expr(rhs.erased())))
    }
}

impl<'a, S: LogicalScalar> vstd::std_specs::ops::BitOrSpecImpl<&'a Expr<S>> for &'a Expr<V3<S>> {
    open spec fn obeys_bitor_spec() -> bool {
        false
    }

    open spec fn bitor_req(self, rhs: &'a Expr<S>) -> bool {
        true
    }

    open spec fn bitor_spec(self, rhs: &'a Expr<S>) -> Expr<V3<S>> {
        arbitrary()
    }
}

impl<S: LogicalScalar> std::ops::BitOr<S> for Expr<V3<S>> {
    type Output = Expr<V3<S>>;

    fn bitor(self, rhs: S) -> (r: Expr<V3<S>>)
        ensures
            r@ == binary_view(BinOp::BitOr, self@, rhs.spec_lit()),
    {
        Expr::new(binary(BinOp::BitOr, self.into_erased(), rhs.to_erased()))
    }
}

impl<S: LogicalScalar> vstd::std_specs::ops::BitOrSpecImpl<S> for Expr<V3<S>> {
    open spec fn obeys_bitor_spec() -> bool {
        false
    }

    open spec fn bitor_req(self, rhs: S) -> bool {
        true
    }

    open spec fn bitor_spec(self, rhs: S) -> Expr<V3<S>> {
        arbitrary()
    }
}

impl<'a, S: LogicalScalar> std::ops::BitOr<S> for &'a Expr<V3<S>> {
    type Output = Expr<V3<S>>;

    fn bitor(self, rhs: S) -> (r: Expr<V3<S>>)
        ensures
            r@ == binary_view(BinOp::BitOr, (*self)@, rhs.spec_lit()),
    {
        Expr::new(binary(BinOp::BitOr, copy_expr(self.erased()), rhs.to_erased()))
    }
}

impl<'a, S: LogicalScalar> vstd::std_specs::ops::BitOrSpecImpl<S> for &'a Expr<V3<S>> {
    open spec fn obeys_bitor_spec() -> bool {
        false
    }

    open spec fn bitor_req(self, rhs: S) -> bool {
        true
    }

    open spec fn bitor_spec(self, rhs: S) -> Expr<V3<S>> {
        arbitrary()
    }
}

impl<S: LogicalScalar> std::ops::BitOr<Expr<S>> for Expr<V4<S>> {
    type Output = Expr<V4<S>>;

    fn bitor(self, rhs: Expr<S>) -> (r: Expr<V4<S>>)
        ensures
            r@ == binary_view(BinOp::BitOr, self@, rhs@),
    {
        Expr::new(binary(BinOp::BitOr, self.into_erased(), rhs.into_erased()))
    }
}

impl<S: LogicalScalar> vstd::std_specs::ops::BitOrSpecImpl<Expr<S>> for Expr<V4<S>> {
    open spec fn obeys_bitor_spec() -> bool {
        false
    }

    open spec fn bitor_req(self, rhs: Expr<S>) -> bool {
        true
    }

    open spec fn bitor_spec(self, rhs: Expr<S>) -> Expr<V4<S>> {
        arbitrary()
    }
}

impl<'a, S: LogicalScalar> std::ops::BitOr<&'a Expr<S>> for Expr<V4<S>> {
    type Output = Expr<V4<S>>;

    fn bitor(self, rhs: &'a Expr<S>) -> (r: Expr<V4<S>>)
        ensures
            r@ == binary_view(BinOp::BitOr, self@, (*rhs)@),
    {
        Expr::new(binary(BinOp::BitOr, self.into_erased(), copy_expr(rhs.erased())))
    }
}

impl<'a, S: LogicalScalar> vstd::std_specs::ops::BitOrSpecImpl<&'a Expr<S>> for Expr<V4<S>> {
    open spec fn obeys_bitor_spec() -> bool {
        false
    }

    open spec fn bitor_req(self, rhs: &'a Expr<S>) -> bool {
        true
    }

    open spec fn bitor_spec(self, rhs: &'a Expr<S>) -> Expr<V4<S>> {
        arbitrary()
    }
}

impl<'a, S: LogicalScalar> std::ops::BitOr<Expr<S>> for &'a Expr<V4<S>> {
    type Output = Expr<V4<S>>;

    fn bitor(self, rhs: Expr<S>) -> (r: Expr<V4<S>>)
        ensures
            r@ == binary_view(BinOp::BitOr, (*self)@, rhs@),
    {
        Expr::new(binary(BinOp::BitOr, copy_expr(self.erased()), rhs.into_erased()))
    }
}

impl<'a, S: LogicalScalar> vstd::std_specs::ops::BitOrSpecImpl<Expr<S>> for &'a Expr<V4<S>> {
    open spec fn obeys_bitor_spec() -> bool {
        false
    }

    open spec fn bitor_req(self, rhs: Expr<S>) -> bool {
        true
    }

    open spec fn bitor_spec(self, rhs: Expr<S>) -> Expr<V4<S>> {
        arbitrary()
    }
}

impl<'a, S: LogicalScalar> std::ops::BitOr<&'a Expr<S>> for &'a Expr<V4<S>> {
    type Output = Expr<V4<S>>;

    fn bitor(self, rhs: &'a Expr<S>) -> (r: Expr<V4<S>>)
        ensures
            r@ == binary_view(BinOp::BitOr, (*self)@, (*rhs)@),
    {
        Expr::new(binary(BinOp::BitOr, copy_expr(self.erased()), copy_expr(rhs.erased())))
    }
}

impl<'a, S: LogicalScalar> vstd::std_specs::ops::BitOrSpecImpl<&'a Expr<S>> for &'a Expr<V4<S>> {
    open spec fn obeys_bitor_spec() -> bool {
        false
    }

    open spec fn bitor_req(self, rhs: &'a Expr<S>) -> bool {
        true
    }

    open spec fn bitor_spec(self, rhs: &'a Expr<S>) -> Expr<V4<S>> {
        arbitrary()
    }
}

impl<S: LogicalScalar> std::ops::BitOr<S> for Expr<V4<S>> {
    type Output = Expr<V4<S>>;

    fn bitor(self, rhs: S) -> (r: Expr<V4<S>>)
        ensures
            r@ == binary_view(BinOp::BitOr, self@, rhs.spec_lit()),
    {
        Expr::new(binary(BinOp::BitOr, self.into_erased(), rhs.to_erased()))
    }
}

impl<S: LogicalScalar> vstd::std_specs::ops::BitOrSpecImpl<S> for Expr<V4<S>> {
    open spec fn obeys_bitor_spec() -> bool {
        false
    }

    open spec fn bitor_req(self, rhs: S) -> bool {
        true
    }

    open spec fn bitor_spec(self, rhs: S) -> Expr<V4<S>> {
        arbitrary()
    }
}

impl<'a, S: LogicalScalar> std::ops::BitOr<S> for &'a Expr<V4<S>> {
    type Output = Expr<V4<S>>;

    fn bitor(self, rhs: S) -> (r: Expr<V4<S>>)
        ensures
            r@ == binary_view(BinOp::BitOr, (*self)@, rhs.spec_lit()),
    {
        Expr::new(binary(BinOp::BitOr, copy_expr(self.erased()), rhs.to_erased()))
    }
}

impl<'a, S: LogicalScalar> vstd::std_specs::ops::BitOrSpecImpl<S> for &'a Expr<V4<S>> {
    open spec fn obeys_bitor_spec() -> bool {
        false
    }

    open spec fn bitor_req(self, rhs: S) -> bool {
        true
    }

    open spec fn bitor_spec(self, rhs: S) -> Expr<V4<S>> {
        arbitrary()
    }
}

impl<T: Logical> std::ops::BitAnd<Expr<T>> for Expr<T> {
    type Output = Expr<T>;

    fn bitand(self, rhs: Expr<T>) -> (r: Expr<T>)
        ensures
            r@ == binary_view(BinOp::BitAnd, self@, rhs@),
    {
        Expr::new(binary(BinOp::BitAnd, self.into_erased(), rhs.into_erased()))
    }
}

impl<T: Logical> vstd::std_specs::ops::BitAndSpecImpl<Expr<T>> for Expr<T> {
    open spec fn obeys_bitand_spec() -> bool {
        false
    }

    open spec fn bitand_req(self, rhs: Expr<T>) -> bool {
        true
    }

    open spec fn bitand_spec(self, rhs: Expr<T>) -> Expr<T> {
        arbitrary()
    }
}

impl<'a, T: Logical> std::ops::BitAnd<&'a Expr<T>> for Expr<T> {
    type Output = Expr<T>;

    fn bitand(self, rhs: &'a Expr<T>) -> (r: Expr<T>)
        ensures
            r@ == binary_view(BinOp::BitAnd, self@, (*rhs)@),
    {
        Expr::new(binary(BinOp::BitAnd, self.into_erased(), copy_expr(rhs.erased())))
    }
}

impl<'a, T: Logical> vstd::std_specs::ops::BitAndSpecImpl<&'a Expr<T>> for Expr<T> {
    open spec fn obeys_bitand_spec() -> bool {
        false
    }

    open spec fn bitand_req(self, rhs: &'a Expr<T>) -> bool {
        true
    }

    open spec fn bitand_spec(self, rhs: &'a Expr<T>) -> Expr<T> {
        arbitrary()
    }
}

impl<'a, T: Logical> std::ops::BitAnd<Expr<T>> for &'a Expr<T> {
    type Output = Expr<T>;

    fn bitand(self, rhs: Expr<T>) -> (r: Expr<T>)
        ensures
            r@ == binary_view(BinOp::BitAnd, (*self)@, rhs@),
    {
        Expr::new(binary(BinOp::BitAnd, copy_expr(self.erased()), rhs.into_erased()))
    }
}

impl<'a, T: Logical> vstd::std_specs::ops::BitAndSpecImpl<Expr<T>> for &'a Expr<T> {
    open spec fn obeys_bitand_spec() -> bool {
        false
    }

    open spec fn bitand_req(self, rhs: Expr<T>) -> bool {
        true
    }

    open spec fn bitand_spec(self, rhs: Expr<T>) -> Expr<T> {
        arbitrary()
    }
}

impl<'a, T: Logical> std::ops::BitAnd<&'a Expr<T>> for &'a Expr<T> {
    type Output = Expr<T>;

    fn bitand(self, rhs: &'a Expr<T>) -> (r: Expr<T>)
        ensures
            r@ == binary_view(BinOp::BitAnd, (*self)@, (*rhs)@),
    {
        Expr::new(binary(BinOp::BitAnd, copy_expr(self.erased()), copy_expr(rhs.erased())))
    }
}

impl<'a, T: Logical> vstd::std_specs::ops::BitAndSpecImpl<&'a Expr<T>> for &'a Expr<T> {
    open spec fn obeys_bitand_spec() -> bool {
        false
    }

    open spec fn bitand_req(self, rhs: &'a Expr<T>) -> bool {
        true
    }

    open spec fn bitand_spec(self, rhs: &'a Expr<T>) -> Expr<T> {
        arbitrary()
    }
}

impl<T: Logical> std::ops::BitAnd<T> for Expr<T> {
    type Output = Expr<T>;

    fn bitand(self, rhs: T) -> (r: Expr<T>)
        ensures
            r@ == binary_view(BinOp::BitAnd, self@, rhs.spec_lit()),
    {
        Expr::new(binary(BinOp::BitAnd, self.into_erased(), rhs.to_erased()))
    }
}

impl<T: Logical> vstd::std_specs::ops::BitAndSpecImpl<T> for Expr<T> {
    open spec fn obeys_bitand_spec() -> bool {
        false
    }

    open spec fn bitand_req(self, rhs: T) -> bool {
        true
    }

    open spec fn bitand_spec(self, rhs: T) -> Expr<T> {
        arbitrary()
    }
}

impl<'a, T: Logical> std::ops::BitAnd<T> for &'a Expr<T> {
    type Output = Expr<T>;

    fn bitand(self, rhs: T) -> (r: Expr<T>)
        ensures
            r@ == binary_view(BinOp::BitAnd, (*self)@, rhs.spec_lit()),
    {
        Expr::new(binary(BinOp::BitAnd, copy_expr(self.erased()), rhs.to_erased()))
    }
}

impl<'a, T: Logical> vstd::std_specs::ops::BitAndSpecImpl<T> for &'a Expr<T> {
    open spec fn obeys_bitand_spec() -> bool {
        false
    }

    open spec fn bitand_req(self, rhs: T) -> bool {
        true
    }

    open spec fn bitand_spec(self, rhs: T) -> Expr<T> {
        arbitrary()
    }
}

impl<S: LogicalScalar> std::ops::BitAnd<Expr<S>> for Expr<V2<S>> {
    type Output = Expr<V2<S>>;

    fn bitand(self, rhs: Expr<S>) -> (r: Expr<V2<S>>)
        ensures
            r@ == binary_view(BinOp::BitAnd, self@, rhs@),
    {
        Expr::new(binary(BinOp::BitAnd, self.into_erased(), rhs.into_erased()))
    }
}

impl<S: LogicalScalar> vstd::std_specs::ops::BitAndSpecImpl<Expr<S>> for Expr<V2<S>> {
    open spec fn obeys_bitand_spec() -> bool {
        false
    }

    open spec fn bitand_req(self, rhs: Expr<S>) -> bool {
        true
    }

    open spec fn bitand_spec(self, rhs: Expr<S>) -> Expr<V2<S>> {
        arbitrary()
    }
}

impl<'a, S: LogicalScalar> std::ops::BitAnd<&'a Expr<S>> for Expr<V2<S>> {
    type Output = Expr<V2<S>>;

    fn bitand(self, rhs: &'a Expr<S>) -> (r: Expr<V2<S>>)
        ensures
            r@ == binary_view(BinOp::BitAnd, self@, (*rhs)@),
    {
        Expr::new(binary(BinOp::BitAnd, self.into_erased(), copy_expr(rhs.erased())))
    }
}

impl<'a, S: LogicalScalar> vstd::std_specs::ops::BitAndSpecImpl<&'a Expr<S>> for Expr<V2<S>> {
    open spec fn obeys_bitand_spec() -> bool {
        false
    }

    open spec fn bitand_req(self, rhs: &'a Expr<S>) -> bool {
        true
    }

    open spec fn bitand_spec(self, rhs: &'a Expr<S>) -> Expr<V2<S>> {
        arbitrary()
    }
}

impl<'a, S: LogicalScalar> std::ops::BitAnd<Expr<S>> for &'a Expr<V2<S>> {
    type Output = Expr<V2<S>>;

    fn bitand(self, rhs: Expr<S>) -> (r: Expr<V2<S>>)
        ensures
            r@ == binary_view(BinOp::BitAnd, (*self)@, rhs@),
    {
        Expr::new(binary(BinOp::BitAnd, copy_expr(self.erased()), rhs.into_erased()))
    }
}

impl<'a, S: LogicalScalar> vstd::std_specs::ops::BitAndSpecImpl<Expr<S>> for &'a Expr<V2<S>> {
    open spec fn obeys_bitand_spec() -> bool {
        false
    }

    open spec fn bitand_req(self, rhs: Expr<S>) -> bool {
        true
    }

    open spec fn bitand_spec(self, rhs: Expr<S>) -> Expr<V2<S>> {
        arbitrary()
    }
}

impl<'a, S: LogicalScalar> std::ops::BitAnd<&'a Expr<S>> for &'a Expr<V2<S>> {
    type Output = Expr<V2<S>>;

    fn bitand(self, rhs: &'a Expr<S>) -> (r: Expr<V2<S>>)
        ensures
            r@ == binary_view(BinOp::BitAnd, (*self)@, (*rhs)@),
    {
        Expr::new(binary(BinOp::BitAnd, copy_expr(self.erased()), copy_expr(rhs.erased())))
    }
}

impl<'a, S: LogicalScalar> vstd::std_specs::ops::BitAndSpecImpl<&'a Expr<S>> for &'a Expr<V2<S>> {
    open spec fn obeys_bitand_spec() -> bool {
        false
    }

    open spec fn bitand_req(self, rhs: &'a Expr<S>) -> bool {
        true
    }

    open spec fn bitand_spec(self, rhs: &'a Expr<S>) -> Expr<V2<S>> {
        arbitrary()
    }
}

impl<S: LogicalScalar> std::ops::BitAnd<S> for Expr<V2<S>> {
    type Output = Expr<V2<S>>;

    fn bitand(self, rhs: S) -> (r: Expr<V2<S>>)
        ensures
            r@ == binary_view(BinOp::BitAnd, self@, rhs.spec_lit()),
    {
        Expr::new(binary(BinOp::BitAnd, self.into_erased(), rhs.to_erased()))
    }
}

impl<S: LogicalScalar> vstd::std_specs::ops::BitAndSpecImpl<S> for Expr<V2<S>> {
    open spec fn obeys_bitand_spec() -> bool {
        false
    }

    open spec fn bitand_req(self, rhs: S) -> bool {
        true
    }

    open spec fn bitand_spec(self, rhs: S) -> Expr<V2<S>> {
        arbitrary()
    }
}

impl<'a, S: LogicalScalar> std::ops::BitAnd<S> for &'a Expr<V2<S>> {
    type Output = Expr<V2<S>>;

    fn bitand(self, rhs: S) -> (r: Expr<V2<S>>)
        ensures
            r@ == binary_view(BinOp::BitAnd, (*self)@, rhs.spec_lit()),
    {
        Expr::new(binary(BinOp::BitAnd, copy_expr(self.erased()), rhs.to_erased()))
    }
}

impl<'a, S: LogicalScalar> vstd::std_specs::ops::BitAndSpecImpl<S> for &'a Expr<V2<S>> {
    open spec fn obeys_bitand_spec() -> bool {
        false
    }

    open spec fn bitand_req(self, rhs: S) -> bool {
        true
    }

    open spec fn bitand_spec(self, rhs: S) -> Expr<V2<S>> {
        arbitrary()
    }
}

impl<S: LogicalScalar> std::ops::BitAnd<Expr<S>> for Expr<V3<S>> {
    type Output = Expr<V3<S>>;

    fn bitand(self, rhs: Expr<S>) -> (r: Expr<V3<S>>)
        ensures
            r@ == binary_view(BinOp::BitAnd, self@, rhs@),
    {
        Expr::new(binary(BinOp::BitAnd, self.into_erased(), rhs.into_erased()))
    }
}

impl<S: LogicalScalar> vstd::std_specs::ops::BitAndSpecImpl<Expr<S>> for Expr<V3<S>> {
    open spec fn obeys_bitand_spec() -> bool {
        false
    }

    open spec fn bitand_req(self, rhs: Expr<S>) -> bool {
        true
    }

    open spec fn bitand_spec(self, rhs: Expr<S>) -> Expr<V3<S>> {
        arbitrary()
    }
}

impl<'a, S: LogicalScalar> std::ops::BitAnd<&'a Expr<S>> for Expr<V3<S>> {
    type Output = Expr<V3<S>>;

    fn bitand(self, rhs: &'a Expr<S>) -> (r: Expr<V3<S>>)
        ensures
            r@ == binary_view(BinOp::BitAnd, self@, (*rhs)@),
    {
        Expr::new(binary(BinOp::BitAnd, self.into_erased(), copy_expr(rhs.erased())))
    }
}

impl<'a, S: LogicalScalar> vstd::std_specs::ops::BitAndSpecImpl<&'a Expr<S>> for Expr<V3<S>> {
    open spec fn obeys_bitand_spec() -> bool {
        false
    }

    open spec fn bitand_req(self, rhs: &'a Expr<S>) -> bool {
        true
    }

    open spec fn bitand_spec(self, rhs: &'a Expr<S>) -> Expr<V3<S>> {
        arbitrary()
    }
}

impl<'a, S: LogicalScalar> std::ops::BitAnd<Expr<S>> for &'a Expr<V3<S>> {
    type Output = Expr<V3<S>>;

    fn bitand(self, rhs: Expr<S>) -> (r: Expr<V3<S>>)
        ensures
            r@ == binary_view(BinOp::BitAnd, (*self)@, rhs@),
    {
        Expr::new(binary(BinOp::BitAnd, copy_expr(self.erased()), rhs.into_erased()))
    }
}

impl<'a, S: LogicalScalar> vstd::std_specs::ops::BitAndSpecImpl<Expr<S>> for &'a Expr<V3<S>> {
    open spec fn obeys_bitand_spec() -> bool {
        false
    }

    open spec fn bitand_req(self, rhs: Expr<S>) -> bool {
        true
    }

    open spec fn bitand_spec(self, rhs: Expr<S>) -> Expr<V3<S>> {
        arbitrary()
    }
}

impl<'a, S: LogicalScalar> std::ops::BitAnd<&'a Expr<S>> for &'a Expr<V3<S>> {
    type Output = Expr<V3<S>>;

    fn bitand(self, rhs: &'a Expr<S>) -> (r: Expr<V3<S>>)
        ensures
            r@ == binary_view(BinOp::BitAnd, (*self)@, (*rhs)@),
    {
        Expr::new(binary(BinOp::BitAnd, copy_expr(self.erased()), copy_expr(rhs.erased())))
    }
}

impl<'a, S: LogicalScalar> vstd::std_specs::ops::BitAndSpecImpl<&'a Expr<S>> for &'a Expr<V3<S>> {
    open spec fn obeys_bitand_spec() -> bool {
        false
    }

    open spec fn bitand_req(self, rhs: &'a Expr<S>) -> bool {
        true
    }

    open spec fn bitand_spec(self, rhs: &'a Expr<S>) -> Expr<V3<S>> {
        arbitrary()
    }
}

impl<S: LogicalScalar> std::ops::BitAnd<S> for Expr<V3<S>> {
    type Output = Expr<V3<S>>;

    fn bitand(self, rhs: S) -> (r: Expr<V3<S>>)
        ensures
            r@ == binary_view(BinOp::BitAnd, self@, rhs.spec_lit()),
    {
        Expr::new(binary(BinOp::BitAnd, self.into_erased(), rhs.to_erased()))
    }
}

impl<S: LogicalScalar> vstd::std_specs::ops::BitAndSpecImpl<S> for Expr<V3<S>> {
    open spec fn obeys_bitand_spec() -> bool {
        false
    }

    open spec fn bitand_req(self, rhs: S) -> bool {
        true
    }

    open spec fn bitand_spec(self, rhs: S) -> Expr<V3<S>> {
        arbitrary()
    }
}

impl<'a, S: LogicalScalar> std::ops::BitAnd<S> for &'a Expr<V3<S>> {
    type Output = Expr<V3<S>>;

    fn bitand(self, rhs: S) -> (r: Expr<V3<S>>)
        ensures
            r@ == binary_view(BinOp::BitAnd, (*self)@, rhs.spec_lit()),
    {
        Expr::new(binary(BinOp::BitAnd, copy_expr(self.erased()), rhs.to_erased()))
    }
}

impl<'a, S: LogicalScalar> vstd::std_specs::ops::BitAndSpecImpl<S> for &'a Expr<V3<S>> {
    open spec fn obeys_bitand_spec() -> bool {
        false
    }

    open spec fn bitand_req(self, rhs: S) -> bool {
        true
    }

    open spec fn bitand_spec(self, rhs: S) -> Expr<V3<S>> {
        arbitrary()
    }
}

impl<S: LogicalScalar> std::ops::BitAnd<Expr<S>> for Expr<V4<S>> {
    type Output = Expr<V4<S>>;

    fn bitand(self, rhs: Expr<S>) -> (r: Expr<V4<S>>)
        ensures
            r@ == binary_view(BinOp::BitAnd, self@, rhs@),
    {
        Expr::new(binary(BinOp::BitAnd, self.into_erased(), rhs.into_erased()))
    }
}

impl<S: LogicalScalar> vstd::std_specs::ops::BitAndSpecImpl<Expr<S>> for Expr<V4<S>> {
    open spec fn obeys_bitand_spec() -> bool {
        false
    }

    open spec fn bitand_req(self, rhs: Expr<S>) -> bool {
        true
    }

    open spec fn bitand_spec(self, rhs: Expr<S>) -> Expr<V4<S>> {
        arbitrary()
    }
}

impl<'a, S: LogicalScalar> std::ops::BitAnd<&'a Expr<S>> for Expr<V4<S>> {
    type Output = Expr<V4<S>>;

    fn bitand(self, rhs: &'a Expr<S>) -> (r: Expr<V4<S>>)
        ensures
            r@ == binary_view(BinOp::BitAnd, self@, (*rhs)@),
    {
        Expr::new(binary(BinOp::BitAnd, self.into_erased(), copy_expr(rhs.erased())))
    }
}

impl<'a, S: LogicalScalar> vstd::std_specs::ops::BitAndSpecImpl<&'a Expr<S>> for Expr<V4<S>> {
    open spec fn obeys_bitand_spec() -> bool {
        false
    }

    open spec fn bitand_req(self, rhs: &'a Expr<S>) -> bool {
        true
    }

    open spec fn bitand_spec(self, rhs: &'a Expr<S>) -> Expr<V4<S>> {
        arbitrary()
    }
}

impl<'a, S: LogicalScalar> std::ops::BitAnd<Expr<S>> for &'a Expr<V4<S>> {
    type Output = Expr<V4<S>>;

    fn bitand(self, rhs: Expr<S>) -> (r: Expr<V4<S>>)
        ensures
            r@ == binary_view(BinOp::BitAnd, (*self)@, rhs@),
    {
        Expr::new(binary(BinOp::BitAnd, copy_expr(self.erased()), rhs.into_erased()))
    }
}

impl<'a, S: LogicalScalar> vstd::std_specs::ops::BitAndSpecImpl<Expr<S>> for &'a Expr<V4<S>> {
    open spec fn obeys_bitand_spec() -> bool {
        false
    }

    open spec fn bitand_req(self, rhs: Expr<S>) -> bool {
        true
    }

    open spec fn bitand_spec(self, rhs: Expr<S>) -> Expr<V4<S>> {
        arbitrary()
    }
}

impl<'a, S: LogicalScalar> std::ops::BitAnd<&'a Expr<S>> for &'a Expr<V4<S>> {
    type Output = Expr<V4<S>>;

    fn bitand(self, rhs: &'a Expr<S>) -> (r: Expr<V4<S>>)
        ensures
            r@ == binary_view(BinOp::BitAnd, (*self)@, (*rhs)@),
    {
        Expr::new(binary(BinOp::BitAnd, copy_expr(self.erased()), copy_expr(rhs.erased())))
    }
}

impl<'a, S: LogicalScalar> vstd::std_specs::ops::BitAndSpecImpl<&'a Expr<S>> for &'a Expr<V4<S>> {
    open spec fn obeys_bitand_spec() -> bool {
        false
    }

    open spec fn bitand_req(self, rhs: &'a Expr<S>) -> bool {
        true
    }

    open spec fn bitand_spec(self, rhs: &'a Expr<S>) -> Expr<V4<S>> {
        arbitrary()
    }
}

impl<S: LogicalScalar> std::ops::BitAnd<S> for Expr<V4<S>> {
    type Output = Expr<V4<S>>;

    fn bitand(self, rhs: S) -> (r: Expr<V4<S>>)
        ensures
            r@ == binary_view(BinOp::BitAnd, self@, rhs.spec_lit()),
    {
        Expr::new(binary(BinOp::BitAnd, self.into_erased(), rhs.to_erased()))
    }
}

impl<S: LogicalScalar> vstd::std_specs::ops::BitAndSpecImpl<S> for Expr<V4<S>> {
    open spec fn obeys_bitand_spec() -> bool {
        false
    }

    open spec fn bitand_req(self, rhs: S) -> bool {
        true
    }

    open spec fn bitand_spec(self, rhs: S) -> Expr<V4<S>> {
        arbitrary()
    }
}

impl<'a, S: LogicalScalar> std::ops::BitAnd<S> for &'a Expr<V4<S>> {
    type Output = Expr<V4<S>>;

    fn bitand(self, rhs: S) -> (r: Expr<V4<S>>)
        ensures
            r@ == binary_view(BinOp::BitAnd, (*self)@, rhs.spec_lit()),
    {
        Expr::new(binary(BinOp::BitAnd, copy_expr(self.erased()), rhs.to_erased()))
    }
}

impl<'a, S: LogicalScalar> vstd::std_specs::ops::BitAndSpecImpl<S> for &'a Expr<V4<S>> {
    open spec fn obeys_bitand_spec() -> bool {
        false
    }

    open spec fn bitand_req(self, rhs: S) -> bool {
        true
    }

    open spec fn bitand_spec(self, rhs: S) -> Expr<V4<S>> {
        arbitrary()
    }
}

impl<T: Logical> std::ops::BitXor<Expr<T>> for Expr<T> {
    type Output = Expr<T>;

    fn bitxor(self, rhs: Expr<T>) -> (r: Expr<T>)
        ensures
            r@ == binary_view(BinOp::BitXor, self@, rhs@),
    {
        Expr::new(binary(BinOp::BitXor, self.into_erased(), rhs.into_erased()))
    }
}

impl<T: Logical> vstd::std_specs::ops::BitXorSpecImpl<Expr<T>> for Expr<T> {
    open spec fn obeys_bitxor_spec() -> bool {
        false
    }

    open spec fn bitxor_req(self, rhs: Expr<T>) -> bool {
        true
    }

    open spec fn bitxor_spec(self, rhs: Expr<T>) -> Expr<T> {
        arbitrary()
    }
}

impl<'a, T: Logical> std::ops::BitXor<&'a Expr<T>> for Expr<T> {
    type Output = Expr<T>;

    fn bitxor(self, rhs: &'a Expr<T>) -> (r: Expr<T>)
        ensures
            r@ == binary_view(BinOp::BitXor, self@, (*rhs)@),
    {
        Expr::new(binary(BinOp::BitXor, self.into_erased(), copy_expr(rhs.erased())))
    }
}

impl<'a, T: Logical> vstd::std_specs::ops::BitXorSpecImpl<&'a Expr<T>> for Expr<T> {
    open spec fn obeys_bitxor_spec() -> bool {
        false
    }

    open spec fn bitxor_req(self, rhs: &'a Expr<T>) -> bool {
        true
    }

    open spec fn bitxor_spec(self, rhs: &'a Expr<T>) -> Expr<T> {
        arbitrary()
    }
}

impl<'a, T: Logical> std::ops::BitXor<Expr<T>> for &'a Expr<T> {
    type Output = Expr<T>;

    fn bitxor(self, rhs: Expr<T>) -> (r: Expr<T>)
        ensures
            r@ == binary_view(BinOp::BitXor, (*self)@, rhs@),
    {
        Expr::new(binary(BinOp::BitXor, copy_expr(self.erased()), rhs.into_erased()))
    }
}

impl<'a, T: Logical> vstd::std_specs::ops::BitXorSpecImpl<Expr<T>> for &'a Expr<T> {
    open spec fn obeys_bitxor_spec() -> bool {
        false
    }

    open spec fn bitxor_req(self, rhs: Expr<T>) -> bool {
        true
    }

    open spec fn bitxor_spec(self, rhs: Expr<T>) -> Expr<T> {
        arbitrary()
    }
}

impl<'a, T: Logical> std::ops::BitXor<&'a Expr<T>> for &'a Expr<T> {
    type Output = Expr<T>;

    fn bitxor(self, rhs: &'a Expr<T>) -> (r: Expr<T>)
        ensures
            r@ == binary_view(BinOp::BitXor, (*self)@, (*rhs)@),
    {
        Expr::new(binary(BinOp::BitXor, copy_expr(self.erased()), copy_expr(rhs.erased())))
    }
}

impl<'a, T: Logical> vstd::std_specs::ops::BitXorSpecImpl<&'a Expr<T>> for &'a Expr<T> {
    open spec fn obeys_bitxor_spec() -> bool {
        false
    }

    open spec fn bitxor_req(self, rhs: &'a Expr<T>) -> bool {
        true
    }

    open spec fn bitxor_spec(self, rhs: &'a Expr<T>) -> Expr<T> {
        arbitrary()
    }
}

impl<T: Logical> std::ops::BitXor<T> for Expr<T> {
    type Output = Expr<T>;

    fn bitxor(self, rhs: T) -> (r: Expr<T>)
        ensures
            r@ == binary_view(BinOp::BitXor, self@, rhs.spec_lit()),
    {
        Expr::new(binary(BinOp::BitXor, self.into_erased(), rhs.to_erased()))
    }
}

impl<T: Logical> vstd::std_specs::ops::BitXorSpecImpl<T> for Expr<T> {
    open spec fn obeys_bitxor_spec() -> bool {
        false
    }

    open spec fn bitxor_req(self, rhs: T) -> bool {
        true
    }

    open spec fn bitxor_spec(self, rhs: T) -> Expr<T> {
        arbitrary()
    }
}

impl<'a, T: Logical> std::ops::BitXor<T> for &'a Expr<T> {
    type Output = Expr<T>;

    fn bitxor(self, rhs: T) -> (r: Expr<T>)
        ensures
            r@ == binary_view(BinOp::BitXor, (*self)@, rhs.spec_lit()),
    {
        Expr::new(binary(BinOp::BitXor, copy_expr(self.erased()), rhs.to_erased()))
    }
}

impl<'a, T: Logical> vstd::std_specs::ops::BitXorSpecImpl<T> for &'a Expr<T> {
    open spec fn obeys_bitxor_spec() -> bool {
        false
    }

    open spec fn bitxor_req(self, rhs: T) -> bool {
        true
    }

    open spec fn bitxor_spec(self, rhs: T) -> Expr<T> {
        arbitrary()
    }
}

impl<S: LogicalScalar> std::ops::BitXor<Expr<S>> for Expr<V2<S>> {
    type Output = Expr<V2<S>>;

    fn bitxor(self, rhs: Expr<S>) -> (r: Expr<V2<S>>)
        ensures
            r@ == binary_view(BinOp::BitXor, self@, rhs@),
    {
        Expr::new(binary(BinOp::BitXor, self.into_erased(), rhs.into_erased()))
    }
}

impl<S: LogicalScalar> vstd::std_specs::ops::BitXorSpecImpl<Expr<S>> for Expr<V2<S>> {
    open spec fn obeys_bitxor_spec() -> bool {
        false
    }

    open spec fn bitxor_req(self, rhs: Expr<S>) -> bool {
        true
    }

    open spec fn bitxor_spec(self, rhs: Expr<S>) -> Expr<V2<S>> {
        arbitrary()
    }
}

impl<'a, S: LogicalScalar> std::ops::BitXor<&'a Expr<S>> for Expr<V2<S>> {
    type Output = Expr<V2<S>>;

    fn bitxor(self, rhs: &'a Expr<S>) -> (r: Expr<V2<S>>)
        ensures
            r@ == binary_view(BinOp::BitXor, self@, (*rhs)@),
    {
        Expr::new(binary(BinOp::BitXor, self.into_erased(), copy_expr(rhs.erased())))
    }
}

impl<'a, S: LogicalScalar> vstd::std_specs::ops::BitXorSpecImpl<&'a Expr<S>> for Expr<V2<S>> {
    open spec fn obeys_bitxor_spec() -> bool {
        false
    }

    open spec fn bitxor_req(self, rhs: &'a Expr<S>) -> bool {
        true
    }

    open spec fn bitxor_spec(self, rhs: &'a Expr<S>) -> Expr<V2<S>> {
        arbitrary()
    }
}

impl<'a, S: LogicalScalar> std::ops::BitXor<Expr<S>> for &'a Expr<V2<S>> {
    type Output = Expr<V2<S>>;

    fn bitxor(self, rhs: Expr<S>) -> (r: Expr<V2<S>>)
        ensures
            r@ == binary_view(BinOp::BitXor, (*self)@, rhs@),
    {
        Expr::new(binary(BinOp::BitXor, copy_expr(self.erased()), rhs.into_erased()))
    }
}

impl<'a, S: LogicalScalar> vstd::std_specs::ops::BitXorSpecImpl<Expr<S>> for &'a Expr<V2<S>> {
    open spec fn obeys_bitxor_spec() -> bool {
        false
    }

    open spec fn bitxor_req(self, rhs: Expr<S>) -> bool {
        true
    }

    open spec fn bitxor_spec(self, rhs: Expr<S>) -> Expr<V2<S>> {
        arbitrary()
    }
}

impl<'a, S: LogicalScalar> std::ops::BitXor<&'a Expr<S>> for &'a Expr<V2<S>> {
    type Output = Expr<V2<S>>;

    fn bitxor(self, rhs: &'a Expr<S>) -> (r: Expr<V2<S>>)
        ensures
            r@ == binary_view(BinOp::BitXor, (*self)@, (*rhs)@),
    {
        Expr::new(binary(BinOp::BitXor, copy_expr(self.erased()), copy_expr(rhs.erased())))
    }
}

impl<'a, S: LogicalScalar> vstd::std_specs::ops::BitXorSpecImpl<&'a Expr<S>> for &'a Expr<V2<S>> {
    open spec fn obeys_bitxor_spec() -> bool {
        false
    }

    open spec fn bitxor_req(self, rhs: &'a Expr<S>) -> bool {
        true
    }

    open spec fn bitxor_spec(self, rhs: &'a Expr<S>) -> Expr<V2<S>> {
        arbitrary()
    }
}

impl<S: LogicalScalar> std::ops::BitXor<S> for Expr<V2<S>> {
    type Output = Expr<V2<S>>;

    fn bitxor(self, rhs: S) -> (r: Expr<V2<S>>)
        ensures
            r@ == binary_view(BinOp::BitXor, self@, rhs.spec_lit()),
    {
        Expr::new(binary(BinOp::BitXor, self.into_erased(), rhs.to_erased()))
    }
}

impl<S: LogicalScalar> vstd::std_specs::ops::BitXorSpecImpl<S> for Expr<V2<S>> {
    open spec fn obeys_bitxor_spec() -> bool {
        false
    }

    open spec fn bitxor_req(self, rhs: S) -> bool {
        true
    }

    open spec fn bitxor_spec(self, rhs: S) -> Expr<V2<S>> {
        arbitrary()
    }
}

impl<'a, S: LogicalScalar> std::ops::BitXor<S> for &'a Expr<V2<S>> {
    type Output = Expr<V2<S>>;

    fn bitxor(self, rhs: S) -> (r: Expr<V2<S>>)
        ensures
            r@ == binary_view(BinOp::BitXor, (*self)@, rhs.spec_lit()),
    {
        Expr::new(binary(BinOp::BitXor, copy_expr(self.erased()), rhs.to_erased()))
    }
}

impl<'a, S: LogicalScalar> vstd::std_specs::ops::BitXorSpecImpl<S> for &'a Expr<V2<S>> {
    open spec fn obeys_bitxor_spec() -> bool {
        false
    }

    open spec fn bitxor_req(self, rhs: S) -> bool {
        true
    }

    open spec fn bitxor_spec(self, rhs: S) -> Expr<V2<S>> {
        arbitrary()
    }
}

impl<S: LogicalScalar> std::ops::BitXor<Expr<S>> for Expr<V3<S>> {
    type Output = Expr<V3<S>>;

    fn bitxor(self, rhs: Expr<S>) -> (r: Expr<V3<S>>)
        ensures
            r@ == binary_view(BinOp::BitXor, self@, rhs@),
    {
        Expr::new(binary(BinOp::BitXor, self.into_erased(), rhs.into_erased()))
    }
}

impl<S: LogicalScalar> vstd::std_specs::ops::BitXorSpecImpl<Expr<S>> for Expr<V3<S>> {
    open spec fn obeys_bitxor_spec() -> bool {
        false
    }

    open spec fn bitxor_req(self, rhs: Expr<S>) -> bool {
        true
    }

    open spec fn bitxor_spec(self, rhs: Expr<S>) -> Expr<V3<S>> {
        arbitrary()
    }
}

impl<'a, S: LogicalScalar> std::ops::BitXor<&'a Expr<S>> for Expr<V3<S>> {
    type Output = Expr<V3<S>>;

    fn bitxor(self, rhs: &'a Expr<S>) -> (r: Expr<V3<S>>)
        ensures
            r@ == binary_view(BinOp::BitXor, self@, (*rhs)@),
    {
        Expr::new(binary(BinOp::BitXor, self.into_erased(), copy_expr(rhs.erased())))
    }
}

impl<'a, S: LogicalScalar> vstd::std_specs::ops::BitXorSpecImpl<&'a Expr<S>> for Expr<V3<S>> {
    open spec fn obeys_bitxor_spec() -> bool {
        false
    }

    open spec fn bitxor_req(self, rhs: &'a Expr<S>) -> bool {
        true
    }

    open spec fn bitxor_spec(self, rhs: &'a Expr<S>) -> Expr<V3<S>> {
        arbitrary()
    }
}

impl<'a, S: LogicalScalar> std::ops::BitXor<Expr<S>> for &'a Expr<V3<S>> {
    type Output = Expr<V3<S>>;

    fn bitxor(self, rhs: Expr<S>) -> (r: Expr<V3<S>>)
        ensures
            r@ == binary_view(BinOp::BitXor, (*self)@, rhs@),
    {
        Expr::new(binary(BinOp::BitXor, copy_expr(self.erased()), rhs.into_erased()))
    }
}

impl<'a, S: LogicalScalar> vstd::std_specs::ops::BitXorSpecImpl<Expr<S>> for &'a Expr<V3<S>> {
    open spec fn obeys_bitxor_spec() -> bool {
        false
    }

    open spec fn bitxor_req(self, rhs: Expr<S>) -> bool {
        true
    }

    open spec fn bitxor_spec(self, rhs: Expr<S>) -> Expr<V3<S>> {
        arbitrary()
    }
}

impl<'a, S: LogicalScalar> std::ops::BitXor<&'a Expr<S>> for &'a Expr<V3<S>> {
    type Output = Expr<V3<S>>;

    fn bitxor(self, rhs: &'a Expr<S>) -> (r: Expr<V3<S>>)
        ensures
            r@ == binary_view(BinOp::BitXor, (*self)@, (*rhs)@),
    {
        Expr::new(binary(BinOp::BitXor, copy_expr(self.erased()), copy_expr(rhs.erased())))
    }
}

impl<'a, S: LogicalScalar> vstd::std_specs::ops::BitXorSpecImpl<&'a Expr<S>> for &'a Expr<V3<S>> {
    open spec fn obeys_bitxor_spec() -> bool {
        false
    }

    open spec fn bitxor_req(self, rhs: &'a Expr<S>) -> bool {
        true
    }

    open spec fn bitxor_spec(self, rhs: &'a Expr<S>) -> Expr<V3<S>> {
        arbitrary()
    }
}

impl<S: LogicalScalar> std::ops::BitXor<S> for Expr<V3<S>> {
    type Output = Expr<V3<S>>;

    fn bitxor(self, rhs: S) -> (r: Expr<V3<S>>)
        ensures
            r@ == binary_view(BinOp::BitXor, self@, rhs.spec_lit()),
    {
        Expr::new(binary(BinOp::BitXor, self.into_erased(), rhs.to_erased()))
    }
}

impl<S: LogicalScalar> vstd::std_specs::ops::BitXorSpecImpl<S> for Expr<V3<S>> {
    open spec fn obeys_bitxor_spec() -> bool {
        false
    }

    open spec fn bitxor_req(self, rhs: S) -> bool {
        true
    }

    open spec fn bitxor_spec(self, rhs: S) -> Expr<V3<S>> {
        arbitrary()
    }
}

impl<'a, S: LogicalScalar> std::ops::BitXor<S> for &'a Expr<V3<S>> {
    type Output = Expr<V3<S>>;

    fn bitxor(self, rhs: S) -> (r: Expr<V3<S>>)
        ensures
            r@ == binary_view(BinOp::BitXor, (*self)@, rhs.spec_lit()),
    {
        Expr::new(binary(BinOp::BitXor, copy_expr(self.erased()), rhs.to_erased()))
    }
}

impl<'a, S: LogicalScalar> vstd::std_specs::ops::BitXorSpecImpl<S> for &'a Expr<V3<S>> {
    open spec fn obeys_bitxor_spec() -> bool {
        false
    }

    open spec fn bitxor_req(self, rhs: S) -> bool {
        true
    }

    open spec fn bitxor_spec(self, rhs: S) -> Expr<V3<S>> {
        arbitrary()
    }
}

impl<S: LogicalScalar> std::ops::BitXor<Expr<S>> for Expr<V4<S>> {
    type Output = Expr<V4<S>>;

    fn bitxor(self, rhs: Expr<S>) -> (r: Expr<V4<S>>)
        ensures
            r@ == binary_view(BinOp::BitXor, self@, rhs@),
    {
        Expr::new(binary(BinOp::BitXor, self.into_erased(), rhs.into_erased()))
    }
}

impl<S: LogicalScalar> vstd::std_specs::ops::BitXorSpecImpl<Expr<S>> for Expr<V4<S>> {
    open spec fn obeys_bitxor_spec() -> bool {
        false
    }

    open spec fn bitxor_req(self, rhs: Expr<S>) -> bool {
        true
    }

    open spec fn bitxor_spec(self, rhs: Expr<S>) -> Expr<V4<S>> {
        arbitrary()
    }
}

impl<'a, S: LogicalScalar> std::ops::BitXor<&'a Expr<S>> for Expr<V4<S>> {
    type Output = Expr<V4<S>>;

    fn bitxor(self, rhs: &'a Expr<S>) -> (r: Expr<V4<S>>)
        ensures
            r@ == binary_view(BinOp::BitXor, self@, (*rhs)@),
    {
        Expr::new(binary(BinOp::BitXor, self.into_erased(), copy_expr(rhs.erased())))
    }
}

impl<'a, S: LogicalScalar> vstd::std_specs::ops::BitXorSpecImpl<&'a Expr<S>> for Expr<V4<S>> {
    open spec fn obeys_bitxor_spec() -> bool {
        false
    }

    open spec fn bitxor_req(self, rhs: &'a Expr<S>) -> bool {
        true
    }

    open spec fn bitxor_spec(self, rhs: &'a Expr<S>) -> Expr<V4<S>> {
        arbitrary()
    }
}

impl<'a, S: LogicalScalar> std::ops::BitXor<Expr<S>> for &'a Expr<V4<S>> {
    type Output = Expr<V4<S>>;

    fn bitxor(self, rhs: Expr<S>) -> (r: Expr<V4<S>>)
        ensures
            r@ == binary_view(BinOp::BitXor, (*self)@, rhs@),
    {
        Expr::new(binary(BinOp::BitXor, copy_expr(self.erased()), rhs.into_erased()))
    }
}

impl<'a, S: LogicalScalar> vstd::std_specs::ops::BitXorSpecImpl<Expr<S>> for &'a Expr<V4<S>> {
    open spec fn obeys_bitxor_spec() -> bool {
        false
    }

    open spec fn bitxor_req(self, rhs: Expr<S>) -> bool {
        true
    }

    open spec fn bitxor_spec(self, rhs: Expr<S>) -> Expr<V4<S>> {
        arbitrary()
    }
}

impl<'a, S: LogicalScalar> std::ops::BitXor<&'a Expr<S>> for &'a Expr<V4<S>> {
    type Output = Expr<V4<S>>;

    fn bitxor(self, rhs: &'a Expr<S>) -> (r: Expr<V4<S>>)
        ensures
            r@ == binary_view(BinOp::BitXor, (*self)@, (*rhs)@),
    {
        Expr::new(binary(BinOp::BitXor, copy_expr(self.erased()), copy_expr(rhs.erased())))
    }
}

impl<'a, S: LogicalScalar> vstd::std_specs::ops::BitXorSpecImpl<&'a Expr<S>> for &'a Expr<V4<S>> {
    open spec fn obeys_bitxor_spec() -> bool {
        false
    }

    open spec fn bitxor_req(self, rhs: &'a Expr<S>) -> bool {
        true
    }

    open spec fn bitxor_spec(self, rhs: &'a Expr<S>) -> Expr<V4<S>> {
        arbitrary()
    }
}

impl<S: LogicalScalar> std::ops::BitXor<S> for Expr<V4<S>> {
    type Output = Expr<V4<S>>;

    fn bitxor(self, rhs: S) -> (r: Expr<V4<S>>)
        ensures
            r@ == binary_view(BinOp::BitXor, self@, rhs.spec_lit()),
    {
        Expr::new(binary(BinOp::BitXor, self.into_erased(), rhs.to_erased()))
    }
}

impl<S: LogicalScalar> vstd::std_specs::ops::BitXorSpecImpl<S> for Expr<V4<S>> {
    open spec fn obeys_bitxor_spec() -> bool {
        false
    }

    open spec fn bitxor_req(self, rhs: S) -> bool {
        true
    }

    open spec fn bitxor_spec(self, rhs: S) -> Expr<V4<S>> {
        arbitrary()
    }
}

impl<'a, S: LogicalScalar> std::ops::BitXor<S> for &'a Expr<V4<S>> {
    type Output = Expr<V4<S>>;

    fn bitxor(self, rhs: S) -> (r: Expr<V4<S>>)
        ensures
            r@ == binary_view(BinOp::BitXor, (*self)@, rhs.spec_lit()),
    {
        Expr::new(binary(BinOp::BitXor, copy_expr(self.erased()), rhs.to_erased()))
    }
}

impl<'a, S: LogicalScalar> vstd::std_specs::ops::BitXorSpecImpl<S> for &'a Expr<V4<S>> {
    open spec fn obeys_bitxor_spec() -> bool {
        false
    }

    open spec fn bitxor_req(self, rhs: S) -> bool {
        true
    }

    open spec fn bitxor_spec(self, rhs: S) -> Expr<V4<S>> {
        arbitrary()
    }
}

impl<T: Integral> std::ops::Shl<Expr<u32>> for Expr<T> {
    type Output = Expr<T>;

    fn shl(self, rhs: Expr<u32>) -> (r: Expr<T>)
        ensures
            r@ == binary_view(BinOp::Shl, self@, rhs@),
    {
        Expr::new(binary(BinOp::Shl, self.into_erased(), rhs.into_erased()))
    }
}

impl<T: Integral> vstd::std_specs::ops::ShlSpecImpl<Expr<u32>> for Expr<T> {
    open spec fn obeys_shl_spec() -> bool {
        false
    }

    open spec fn shl_req(self, rhs: Expr<u32>) -> bool {
        true
    }

    open spec fn shl_spec(self, rhs: Expr<u32>) -> Expr<T> {
        arbitrary()
    }
}

impl<'a, T: Integral> std::ops::Shl<&'a Expr<u32>> for Expr<T> {
    type Output = Expr<T>;

    fn shl(self, rhs: &'a Expr<u32>) -> (r: Expr<T>)
        ensures
            r@ == binary_view(BinOp::Shl, self@, (*rhs)@),
    {
        Expr::new(binary(BinOp::Shl, self.into_erased(), copy_expr(rhs.erased())))
    }
}

impl<'a, T: Integral> vstd::std_specs::ops::ShlSpecImpl<&'a Expr<u32>> for Expr<T> {
    open spec fn obeys_shl_spec() -> bool {
        false
    }

    open spec fn shl_req(self, rhs: &'a Expr<u32>) -> bool {
        true
    }

    open spec fn shl_spec(self, rhs: &'a Expr<u32>) -> Expr<T> {
        arbitrary()
    }
}

impl<'a, T: Integral> std::ops::Shl<Expr<u32>> for &'a Expr<T> {
    type Output = Expr<T>;

    fn shl(self, rhs: Expr<u32>) -> (r: Expr<T>)
        ensures
            r@ == binary_view(BinOp::Shl, (*self)@, rhs@),
    {
        Expr::new(binary(BinOp::Shl, copy_expr(self.erased()), rhs.into_erased()))
    }
}

impl<'a, T: Integral> vstd::std_specs::ops::ShlSpecImpl<Expr<u32>> for &'a Expr<T> {
    open spec fn obeys_shl_spec() -> bool {
        false
    }

    open spec fn shl_req(self, rhs: Expr<u32>) -> bool {
        true
    }

    open spec fn shl_spec(self, rhs: Expr<u32>) -> Expr<T> {
        arbitrary()
    }
}

impl<'a, T: Integral> std::ops::Shl<&'a Expr<u32>> for &'a Expr<T> {
    type Output = Expr<T>;

    fn shl(self, rhs: &'a Expr<u32>) -> (r: Expr<T>)
        ensures
            r@ == binary_view(BinOp::Shl, (*self)@, (*rhs)@),
    {
        Expr::new(binary(BinOp::Shl, copy_expr(self.erased()), copy_expr(rhs.erased())))
    }
}

impl<'a, T: Integral> vstd::std_specs::ops::ShlSpecImpl<&'a Expr<u32>> for &'a Expr<T> {
    open spec fn obeys_shl_spec() -> bool {
        false
    }

    open spec fn shl_req(self, rhs: &'a Expr<u32>) -> bool {
        true
    }

    open spec fn shl_spec(self, rhs: &'a Expr<u32>) -> Expr<T> {
        arbitrary()
    }
}

impl<T: Integral> std::ops::Shl<u32> for Expr<T> {
    type Output = Expr<T>;

    fn shl(self, rhs: u32) -> (r: Expr<T>)
        ensures
            r@ == binary_view(BinOp::Shl, self@, rhs.spec_lit()),
    {
        Expr::new(binary(BinOp::Shl, self.into_erased(), rhs.to_erased()))
    }
}

impl<T: Integral> vstd::std_specs::ops::ShlSpecImpl<u32> for Expr<T> {
    open spec fn obeys_shl_spec() -> bool {
        false
    }

    open spec fn shl_req(self, rhs: u32) -> bool {
        true
    }

    open spec fn shl_spec(self, rhs: u32) -> Expr<T> {
        arbitrary()
    }
}

impl<'a, T: Integral> std::ops::Shl<u32> for &'a Expr<T> {
    type Output = Expr<T>;

    fn shl(self, rhs: u32) -> (r: Expr<T>)
        ensures
            r@ == binary_view(BinOp::Shl, (*self)@, rhs.spec_lit()),
    {
        Expr::new(binary(BinOp::Shl, copy_expr(self.erased()), rhs.to_erased()))
    }
}

impl<'a, T: Integral> vstd::std_specs::ops::ShlSpecImpl<u32> for &'a Expr<T> {
    open spec fn obeys_shl_spec() -> bool {
        false
    }

    open spec fn shl_req(self, rhs: u32) -> bool {
        true
    }

    open spec fn shl_spec(self, rhs: u32) -> Expr<T> {
        arbitrary()
    }
}

impl<T: Integral> std::ops::Shr<Expr<u32>> for Expr<T> {
    type Output = Expr<T>;

    fn shr(self, rhs: Expr<u32>) -> (r: Expr<T>)
        ensures
            r@ == binary_view(BinOp::Shr, self@, rhs@),
    {
        Expr::new(binary(BinOp::Shr, self.into_erased(), rhs.into_erased()))
    }
}

impl<T: Integral> vstd::std_specs::ops::ShrSpecImpl<Expr<u32>> for Expr<T> {
    open spec fn obeys_shr_spec() -> bool {
        false
    }

    open spec fn shr_req(self, rhs: Expr<u32>) -> bool {
        true
    }

    open spec fn shr_spec(self, rhs: Expr<u32>) -> Expr<T> {
        arbitrary()
    }
}

impl<'a, T: Integral> std::ops::Shr<&'a Expr<u32>> for Expr<T> {
    type Output = Expr<T>;

    fn shr(self, rhs: &'a Expr<u32>) -> (r: Expr<T>)
        ensures
            r@ == binary_view(BinOp::Shr, self@, (*rhs)@),
    {
        Expr::new(binary(BinOp::Shr, self.into_erased(), copy_expr(rhs.erased())))
    }
}

impl<'a, T: Integral> vstd::std_specs::ops::ShrSpecImpl<&'a Expr<u32>> for Expr<T> {
    open spec fn obeys_shr_spec() -> bool {
        false
    }

    open spec fn shr_req(self, rhs: &'a Expr<u32>) -> bool {
        true
    }

    open spec fn shr_spec(self, rhs: &'a Expr<u32>) -> Expr<T> {
        arbitrary()
    }
}

impl<'a, T: Integral> std::ops::Shr<Expr<u32>> for &'a Expr<T> {
    type Output = Expr<T>;

    fn shr(self, rhs: Expr<u32>) -> (r: Expr<T>)
        ensures
            r@ == binary_view(BinOp::Shr, (*self)@, rhs@),
    {
        Expr::new(binary(BinOp::Shr, copy_expr(self.erased()), rhs.into_erased()))
    }
}

impl<'a, T: Integral> vstd::std_specs::ops::ShrSpecImpl<Expr<u32>> for &'a Expr<T> {
    open spec fn obeys_shr_spec() -> bool {
        false
    }

    open spec fn shr_req(self, rhs: Expr<u32>) -> bool {
        true
    }

    open spec fn shr_spec(self, rhs: Expr<u32>) -> Expr<T> {
        arbitrary()
    }
}

impl<'a, T: Integral> std::ops::Shr<&'a Expr<u32>> for &'a Expr<T> {
    type Output = Expr<T>;

    fn shr(self, rhs: &'a Expr<u32>) -> (r: Expr<T>)
        ensures
            r@ == binary_view(BinOp::Shr, (*self)@, (*rhs)@),
    {
        Expr::new(binary(BinOp::Shr, copy_expr(self.erased()), copy_expr(rhs.erased())))
    }
}

impl<'a, T: Integral> vstd::std_specs::ops::ShrSpecImpl<&'a Expr<u32>> for &'a Expr<T> {
    open spec fn obeys_shr_spec() -> bool {
        false
    }

    open spec fn shr_req(self, rhs: &'a Expr<u32>) -> bool {
        true
    }

    open spec fn shr_spec(self, rhs: &'a Expr<u32>) -> Expr<T> {
        arbitrary()
    }
}

impl<T: Integral> std::ops::Shr<u32> for Expr<T> {
    type Output = Expr<T>;

    fn shr(self, rhs: u32) -> (r: Expr<T>)
        ensures
            r@ == binary_view(BinOp::Shr, self@, rhs.spec_lit()),
    {
        Expr::new(binary(BinOp::Shr, self.into_erased(), rhs.to_erased()))
    }
}

impl<T: Integral> vstd::std_specs::ops::ShrSpecImpl<u32> for Expr<T> {
    open spec fn obeys_shr_spec() -> bool {
        false
    }

    open spec fn shr_req(self, rhs: u32) -> bool {
        true
    }

    open spec fn shr_spec(self, rhs: u32) -> Expr<T> {
        arbitrary()
    }
}

impl<'a, T: Integral> std::ops::Shr<u32> for &'a Expr<T> {
    type Output = Expr<T>;

    fn shr(self, rhs: u32) -> (r: Expr<T>)
        ensures
            r@ == binary_view(BinOp::Shr, (*self)@, rhs.spec_lit()),
    {
        Expr::new(binary(BinOp::Shr, copy_expr(self.erased()), rhs.to_erased()))
    }
}

impl<'a, T: Integral> vstd::std_specs::ops::ShrSpecImpl<u32> for &'a Expr<T> {
    open spec fn obeys_shr_spec() -> bool {
        false
    }

    open spec fn shr_req(self, rhs: u32) -> bool {
        true
    }

    open spec fn shr_spec(self, rhs: u32) -> Expr<T> {
        arbitrary()
    }
}

impl<T: Logical> std::ops::Not for Expr<T> {
    type Output = Expr<T>;

    fn not(self) -> (r: Expr<T>)
        ensures
            r@ == ExprView::Not(Box::new(self@)),
    {
        Expr::new(ErasedExpr::Not(Box::new(self.into_erased())))
    }
}

impl<T: Logical> vstd::std_specs::ops::NotSpecImpl for Expr<T> {
    open spec fn obeys_not_spec() -> bool {
        false
    }

    open spec fn not_req(self) -> bool {
        true
    }

    open spec fn not_spec(self) -> Expr<T> {
        arbitrary()
    }
}

impl<T: Arithmetic> std::ops::Neg for Expr<T> {
    type Output = Expr<T>;

    fn neg(self) -> (r: Expr<T>)
        ensures
            r@ == ExprView::Neg(Box::new(self@)),
    {
        Expr::new(ErasedExpr::Neg(Box::new(self.into_erased())))
    }
}

impl<T: Arithmetic> vstd::std_specs::ops::NegSpecImpl for Expr<T> {
    open spec fn obeys_neg_spec() -> bool {
        false
    }

    open spec fn neg_req(self) -> bool {
        true
    }

    open spec fn neg_spec(self) -> Expr<T> {
        arbitrary()
    }
}

impl<'a, T: Logical> std::ops::Not for &'a Expr<T> {
    type Output = Expr<T>;

    fn not(self) -> (r: Expr<T>)
        ensures
            r@ == ExprView::Not(Box::new((*self)@)),
    {
        Expr::new(ErasedExpr::Not(Box::new(copy_expr(self.erased()))))
    }
}

impl<'a, T: Logical> vstd::std_specs::ops::NotSpecImpl for &'a Expr<T> {
    open spec fn obeys_not_spec() -> bool {
        false
    }

    open spec fn not_req(self) -> bool {
        true
    }

    open spec fn not_spec(self) -> Expr<T> {
        arbitrary()
    }
}

impl<'a, T: Arithmetic> std::ops::Neg for &'a Expr<T> {
    type Output = Expr<T>;

    fn neg(self) -> (r: Expr<T>)
        ensures
            r@ == ExprView::Neg(Box::new((*self)@)),
    {
        Expr::new(ErasedExpr::Neg(Box::new(copy_expr(self.erased()))))
    }
}

impl<'a, T: Arithmetic> vstd::std_specs::ops::NegSpecImpl for &'a Expr<T> {
    open spec fn obeys_neg_spec() -> bool {
        false
    }

    open spec fn neg_req(self) -> bool {
        true
    }

    open spec fn neg_spec(self) -> Expr<T> {
        arbitrary()
    }
}

} // verus!
