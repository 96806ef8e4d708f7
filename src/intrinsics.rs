//! Intrinsic functions of the shading language, each lowered to one call node.

use vstd::prelude::*;

use crate::expr::{copy_expr, ErasedExpr, ErasedFunHandle, ExprView};
use crate::ops::FloatArithmetic;
use crate::typed::{Expr, IntoExpr, Literal};
use crate::types::{Float, ToPrimType, V2, V3, V4};

verus! {

fn call1(h: ErasedFunHandle, a: ErasedExpr) -> (r: ErasedExpr)
    ensures
        r@ == ExprView::FunCall(h, seq![a@]),
{
    let ghost va = a@;
    let mut args: Vec<ErasedExpr> = Vec::new();
    args.push(a);
    let r = ErasedExpr::FunCall(h, args);
    proof {
        assert(r@->FunCall_1 =~= seq![va]);
    }
    r
}

fn call2(h: ErasedFunHandle, a: ErasedExpr, b: ErasedExpr) -> (r: ErasedExpr)
    ensures
        r@ == ExprView::FunCall(h, seq![a@, b@]),
{
    let ghost va = a@;
    let ghost vb = b@;
    let mut args: Vec<ErasedExpr> = Vec::new();
    args.push(a);
    args.push(b);
    let r = ErasedExpr::FunCall(h, args);
    proof {
        assert(r@->FunCall_1 =~= seq![va, vb]);
    }
    r
}

fn call3(h: ErasedFunHandle, a: ErasedExpr, b: ErasedExpr, c: ErasedExpr) -> (r: ErasedExpr)
    ensures
        r@ == ExprView::FunCall(h, seq![a@, b@, c@]),
{
    let ghost va = a@;
    let ghost vb = b@;
    let ghost vc = c@;
    let mut args: Vec<ErasedExpr> = Vec::new();
    args.push(a);
    args.push(b);
    args.push(c);
    let r = ErasedExpr::FunCall(h, args);
    proof {
        assert(r@->FunCall_1 =~= seq![va, vb, vc]);
    }
    r
}

/// Shader types with a sign: `abs` and `sign`.
pub trait Signed: Literal {}

impl Signed for i32 {}

impl Signed for Float {}

impl Signed for V2<i32> {}

impl Signed for V2<Float> {}

impl Signed for V3<i32> {}

impl Signed for V3<Float> {}

impl Signed for V4<i32> {}

impl Signed for V4<Float> {}

/// Trigonometric functions.
pub trait Trigonometry: View<V = ExprView> + Sized {
    fn radians(&self) -> (r: Self)
        ensures
            r@ == ExprView::FunCall(ErasedFunHandle::Radians, seq![self@]),
    ;

    fn degrees(&self) -> (r: Self)
        ensures
            r@ == ExprView::FunCall(ErasedFunHandle::Degrees, seq![self@]),
    ;

    fn sin(&self) -> (r: Self)
        ensures
            r@ == ExprView::FunCall(ErasedFunHandle::Sin, seq![self@]),
    ;

    fn cos(&self) -> (r: Self)
        ensures
            r@ == ExprView::FunCall(ErasedFunHandle::Cos, seq![self@]),
    ;

    fn tan(&self) -> (r: Self)
        ensures
            r@ == ExprView::FunCall(ErasedFunHandle::Tan, seq![self@]),
    ;

    fn asin(&self) -> (r: Self)
        ensures
            r@ == ExprView::FunCall(ErasedFunHandle::ASin, seq![self@]),
    ;

    fn acos(&self) -> (r: Self)
        ensures
            r@ == ExprView::FunCall(ErasedFunHandle::ACos, seq![self@]),
    ;

    fn atan(&self) -> (r: Self)
        ensures
            r@ == ExprView::FunCall(ErasedFunHandle::ATan, seq![self@]),
    ;

    fn sinh(&self) -> (r: Self)
        ensures
            r@ == ExprView::FunCall(ErasedFunHandle::SinH, seq![self@]),
    ;

    fn cosh(&self) -> (r: Self)
        ensures
            r@ == ExprView::FunCall(ErasedFunHandle::CosH, seq![self@]),
    ;

    fn tanh(&self) -> (r: Self)
        ensures
            r@ == ExprView::FunCall(ErasedFunHandle::TanH, seq![self@]),
    ;

    fn asinh(&self) -> (r: Self)
        ensures
            r@ == ExprView::FunCall(ErasedFunHandle::ASinH, seq![self@]),
    ;

    fn acosh(&self) -> (r: Self)
        ensures
            r@ == ExprView::FunCall(ErasedFunHandle::ACosH, seq![self@]),
    ;

    fn atanh(&self) -> (r: Self)
        ensures
            r@ == ExprView::FunCall(ErasedFunHandle::ATanH, seq![self@]),
    ;
}

impl<T: FloatArithmetic> Trigonometry for Expr<T> {
    fn radians(&self) -> (r: Self) {
        Expr::new(call1(ErasedFunHandle::Radians, copy_expr(self.erased())))
    }

    fn degrees(&self) -> (r: Self) {
        Expr::new(call1(ErasedFunHandle::Degrees, copy_expr(self.erased())))
    }

    fn sin(&self) -> (r: Self) {
        Expr::new(call1(ErasedFunHandle::Sin, copy_expr(self.erased())))
    }

    fn cos(&self) -> (r: Self) {
        Expr::new(call1(ErasedFunHandle::Cos, copy_expr(self.erased())))
    }

    fn tan(&self) -> (r: Self) {
        Expr::new(call1(ErasedFunHandle::Tan, copy_expr(self.erased())))
    }

    fn asin(&self) -> (r: Self) {
        Expr::new(call1(ErasedFunHandle::ASin, copy_expr(self.erased())))
    }

    fn acos(&self) -> (r: Self) {
        Expr::new(call1(ErasedFunHandle::ACos, copy_expr(self.erased())))
    }

    fn atan(&self) -> (r: Self) {
        Expr::new(call1(ErasedFunHandle::ATan, copy_expr(self.erased())))
    }

    fn sinh(&self) -> (r: Self) {
        Expr::new(call1(ErasedFunHandle::SinH, copy_expr(self.erased())))
    }

    fn cosh(&self) -> (r: Self) {
        Expr::new(call1(ErasedFunHandle::CosH, copy_expr(self.erased())))
    }

    fn tanh(&self) -> (r: Self) {
        Expr::new(call1(ErasedFunHandle::TanH, copy_expr(self.erased())))
    }

    fn asinh(&self) -> (r: Self) {
        Expr::new(call1(ErasedFunHandle::ASinH, copy_expr(self.erased())))
    }

    fn acosh(&self) -> (r: Self) {
        Expr::new(call1(ErasedFunHandle::ACosH, copy_expr(self.erased())))
    }

    fn atanh(&self) -> (r: Self) {
        Expr::new(call1(ErasedFunHandle::ATanH, copy_expr(self.erased())))
    }
}

/// Exponential functions.
pub trait Exponential: View<V = ExprView> + Sized {
    /// The shader type of the expression.
    type Ty;

    fn pow<P: IntoExpr<Self::Ty>>(&self, p: P) -> (r: Self)
        ensures
            r@ == ExprView::FunCall(ErasedFunHandle::Pow, seq![self@, p.spec_expr()]),
    ;

    fn exp(&self) -> (r: Self)
        ensures
            r@ == ExprView::FunCall(ErasedFunHandle::Exp, seq![self@]),
    ;

    fn exp2(&self) -> (r: Self)
        ensures
            r@ == ExprView::FunCall(ErasedFunHandle::Exp2, seq![self@]),
    ;

    fn log(&self) -> (r: Self)
        ensures
            r@ == ExprView::FunCall(ErasedFunHandle::Log, seq![self@]),
    ;

    fn log2(&self) -> (r: Self)
        ensures
            r@ == ExprView::FunCall(ErasedFunHandle::Log2, seq![self@]),
    ;

    fn sqrt(&self) -> (r: Self)
        ensures
            r@ == ExprView::FunCall(ErasedFunHandle::Sqrt, seq![self@]),
    ;

    fn isqrt(&self) -> (r: Self)
        ensures
            r@ == ExprView::FunCall(ErasedFunHandle::InverseSqrt, seq![self@]),
    ;
}

impl<T: FloatArithmetic> Exponential for Expr<T> {
    type Ty = T;

    fn pow<P: IntoExpr<T>>(&self, p: P) -> (r: Self) {
        Expr::new(call2(ErasedFunHandle::Pow, copy_expr(self.erased()), p.into_expr().into_erased()))
    }

    fn exp(&self) -> (r: Self) {
        Expr::new(call1(ErasedFunHandle::Exp, copy_expr(self.erased())))
    }

    fn exp2(&self) -> (r: Self) {
        Expr::new(call1(ErasedFunHandle::Exp2, copy_expr(self.erased())))
    }

    fn log(&self) -> (r: Self) {
        Expr::new(call1(ErasedFunHandle::Log, copy_expr(self.erased())))
    }

    fn log2(&self) -> (r: Self) {
        Expr::new(call1(ErasedFunHandle::Log2, copy_expr(self.erased())))
    }

    fn sqrt(&self) -> (r: Self) {
        Expr::new(call1(ErasedFunHandle::Sqrt, copy_expr(self.erased())))
    }

    fn isqrt(&self) -> (r: Self) {
        Expr::new(call1(ErasedFunHandle::InverseSqrt, copy_expr(self.erased())))
    }
}

/// Absolute value and sign.
pub trait Relative: View<V = ExprView> + Sized {
    fn abs(&self) -> (r: Self)
        ensures
            r@ == ExprView::FunCall(ErasedFunHandle::Abs, seq![self@]),
    ;

    fn sign(&self) -> (r: Self)
        ensures
            r@ == ExprView::FunCall(ErasedFunHandle::Sign, seq![self@]),
    ;
}

impl<T: Signed> Relative for Expr<T> {
    fn abs(&self) -> (r: Self) {
        Expr::new(call1(ErasedFunHandle::Abs, copy_expr(self.erased())))
    }

    fn sign(&self) -> (r: Self) {
        Expr::new(call1(ErasedFunHandle::Sign, copy_expr(self.erased())))
    }
}

/// Rounding functions.
pub trait Floating: View<V = ExprView> + Sized {
    fn floor(&self) -> (r: Self)
        ensures
            r@ == ExprView::FunCall(ErasedFunHandle::Floor, seq![self@]),
    ;

    fn trunc(&self) -> (r: Self)
        ensures
            r@ == ExprView::FunCall(ErasedFunHandle::Trunc, seq![self@]),
    ;

    fn round(&self) -> (r: Self)
        ensures
            r@ == ExprView::FunCall(ErasedFunHandle::Round, seq![self@]),
    ;

    fn ceil(&self) -> (r: Self)
        ensures
            r@ == ExprView::FunCall(ErasedFunHandle::Ceil, seq![self@]),
    ;

    fn fract(&self) -> (r: Self)
        ensures
            r@ == ExprView::FunCall(ErasedFunHandle::Fract, seq![self@]),
    ;
}

impl<T: FloatArithmetic> Floating for Expr<T> {
    fn floor(&self) -> (r: Self) {
        Expr::new(call1(ErasedFunHandle::Floor, copy_expr(self.erased())))
    }

    fn trunc(&self) -> (r: Self) {
        Expr::new(call1(ErasedFunHandle::Trunc, copy_expr(self.erased())))
    }

    fn round(&self) -> (r: Self) {
        Expr::new(call1(ErasedFunHandle::Round, copy_expr(self.erased())))
    }

    fn ceil(&self) -> (r: Self) {
        Expr::new(call1(ErasedFunHandle::Ceil, copy_expr(self.erased())))
    }

    fn fract(&self) -> (r: Self) {
        Expr::new(call1(ErasedFunHandle::Fract, copy_expr(self.erased())))
    }
}

/// Minimum, maximum and clamping.
pub trait Bounded: View<V = ExprView> + Sized {
    /// The shader type of the expression.
    type Ty;

    fn min<Rhs: IntoExpr<Self::Ty>>(&self, rhs: Rhs) -> (r: Self)
        ensures
            r@ == ExprView::FunCall(ErasedFunHandle::Min, seq![self@, rhs.spec_expr()]),
    ;

    fn max<Rhs: IntoExpr<Self::Ty>>(&self, rhs: Rhs) -> (r: Self)
        ensures
            r@ == ExprView::FunCall(ErasedFunHandle::Max, seq![self@, rhs.spec_expr()]),
    ;

    fn clamp<MinValue: IntoExpr<Self::Ty>, MaxValue: IntoExpr<Self::Ty>>(&self, min_value: MinValue, max_value: MaxValue) -> (r: Self)
        ensures
            r@ == ExprView::FunCall(ErasedFunHandle::Clamp, seq![self@, min_value.spec_expr(), max_value.spec_expr()]),
    ;
}

impl<T: ToPrimType> Bounded for Expr<T> {
    type Ty = T;

    fn min<Rhs: IntoExpr<T>>(&self, rhs: Rhs) -> (r: Self) {
        Expr::new(call2(ErasedFunHandle::Min, copy_expr(self.erased()), rhs.into_expr().into_erased()))
    }

    fn max<Rhs: IntoExpr<T>>(&self, rhs: Rhs) -> (r: Self) {
        Expr::new(call2(ErasedFunHandle::Max, copy_expr(self.erased()), rhs.into_expr().into_erased()))
    }

    fn clamp<MinValue: IntoExpr<T>, MaxValue: IntoExpr<T>>(&self, min_value: MinValue, max_value: MaxValue) -> (r: Self) {
        Expr::new(call3(ErasedFunHandle::Clamp, copy_expr(self.erased()), min_value.into_expr().into_erased(), max_value.into_expr().into_erased()))
    }
}

/// Interpolation and step functions.
pub trait Mix: View<V = ExprView> + Sized {
    /// The shader type of the expression.
    type Ty;

    fn mix<Y: IntoExpr<Self::Ty>, A: IntoExpr<Self::Ty>>(&self, y: Y, a: A) -> (r: Self)
        ensures
            r@ == ExprView::FunCall(ErasedFunHandle::Mix, seq![self@, y.spec_expr(), a.spec_expr()]),
    ;

    fn step<Edge: IntoExpr<Self::Ty>>(&self, edge: Edge) -> (r: Self)
        ensures
            r@ == ExprView::FunCall(ErasedFunHandle::Step, seq![self@, edge.spec_expr()]),
    ;

    fn smooth_step<EdgeA: IntoExpr<Self::Ty>, EdgeB: IntoExpr<Self::Ty>>(&self, edge_a: EdgeA, edge_b: EdgeB) -> (r: Self)
        ensures
            r@ == ExprView::FunCall(ErasedFunHandle::SmoothStep, seq![self@, edge_a.spec_expr(), edge_b.spec_expr()]),
    ;
}

impl<T: FloatArithmetic> Mix for Expr<T> {
    type Ty = T;

    fn mix<Y: IntoExpr<T>, A: IntoExpr<T>>(&self, y: Y, a: A) -> (r: Self) {
        Expr::new(call3(ErasedFunHandle::Mix, copy_expr(self.erased()), y.into_expr().into_erased(), a.into_expr().into_erased()))
    }

    fn step<Edge: IntoExpr<T>>(&self, edge: Edge) -> (r: Self) {
        Expr::new(call2(ErasedFunHandle::Step, copy_expr(self.erased()), edge.into_expr().into_erased()))
    }

    fn smooth_step<EdgeA: IntoExpr<T>, EdgeB: IntoExpr<T>>(&self, edge_a: EdgeA, edge_b: EdgeB) -> (r: Self) {
        Expr::new(call3(ErasedFunHandle::SmoothStep, copy_expr(self.erased()), edge_a.into_expr().into_erased(), edge_b.into_expr().into_erased()))
    }
}

/// Tests for not-a-number and infinity, component-wise.
pub trait FloatingExt: View<V = ExprView> {
    /// The boolean type of the same dimension.
    type BoolExpr: View<V = ExprView>;

    fn is_nan(&self) -> (r: Self::BoolExpr)
        ensures
            r@ == ExprView::FunCall(ErasedFunHandle::IsNan, seq![self@]),
    ;

    fn is_inf(&self) -> (r: Self::BoolExpr)
        ensures
            r@ == ExprView::FunCall(ErasedFunHandle::IsInf, seq![self@]),
    ;
}

impl FloatingExt for Expr<Float> {
    type BoolExpr = Expr<bool>;

    fn is_nan(&self) -> (r: Expr<bool>) {
        Expr::new(call1(ErasedFunHandle::IsNan, copy_expr(self.erased())))
    }

    fn is_inf(&self) -> (r: Expr<bool>) {
        Expr::new(call1(ErasedFunHandle::IsInf, copy_expr(self.erased())))
    }
}

impl FloatingExt for Expr<V2<Float>> {
    type BoolExpr = Expr<V2<bool>>;

    fn is_nan(&self) -> (r: Expr<V2<bool>>) {
        Expr::new(call1(ErasedFunHandle::IsNan, copy_expr(self.erased())))
    }

    fn is_inf(&self) -> (r: Expr<V2<bool>>) {
        Expr::new(call1(ErasedFunHandle::IsInf, copy_expr(self.erased())))
    }
}

impl FloatingExt for Expr<V3<Float>> {
    type BoolExpr = Expr<V3<bool>>;

    fn is_nan(&self) -> (r: Expr<V3<bool>>) {
        Expr::new(call1(ErasedFunHandle::IsNan, copy_expr(self.erased())))
    }

    fn is_inf(&self) -> (r: Expr<V3<bool>>) {
        Expr::new(call1(ErasedFunHandle::IsInf, copy_expr(self.erased())))
    }
}

impl FloatingExt for Expr<V4<Float>> {
    type BoolExpr = Expr<V4<bool>>;

    fn is_nan(&self) -> (r: Expr<V4<bool>>) {
        Expr::new(call1(ErasedFunHandle::IsNan, copy_expr(self.erased())))
    }

    fn is_inf(&self) -> (r: Expr<V4<bool>>) {
        Expr::new(call1(ErasedFunHandle::IsInf, copy_expr(self.erased())))
    }
}

} // verus!
