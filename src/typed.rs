//! The typed expression layer: `Expr<T>` wraps an untyped tree and carries its
//! shader type `T` in the host type system only.

use vstd::prelude::*;

use std::marker::PhantomData;

use crate::builtin::BuiltIn;
use crate::expr::{binary, binary_view, copy_expr, BinOp, ErasedExpr, ExprView, ScopedHandle, Swizzle, SwizzleSelector};
use crate::types::{Float, ToType, V2, V3, V4};

verus! {

/// A typed shader expression. The type parameter has no runtime representation.
#[derive(Debug)]
pub struct Expr<T: ?Sized> {
    erased: ErasedExpr,
    _phantom: PhantomData<T>,
}

impl<T: ?Sized> View for Expr<T> {
    type V = ExprView;

    closed spec fn view(&self) -> ExprView {
        self.erased@
    }
}

impl<T: ?Sized> Expr<T> {
    pub(crate) fn new(erased: ErasedExpr) -> (r: Self)
        ensures
            r@ == erased@,
    {
        Expr { erased, _phantom: PhantomData }
    }

    pub(crate) fn new_builtin(builtin: BuiltIn) -> (r: Self)
        ensures
            r@ == ExprView::MutVar(ScopedHandle::BuiltIn(builtin)),
    {
        Self::new(ErasedExpr::MutVar(ScopedHandle::builtin(builtin)))
    }

    pub(crate) fn new_immut_builtin(builtin: BuiltIn) -> (r: Self)
        ensures
            r@ == ExprView::ImmutBuiltIn(builtin),
    {
        Self::new(ErasedExpr::ImmutBuiltIn(builtin))
    }

    /// The untyped tree of this expression.
    pub fn erased(&self) -> (r: &ErasedExpr)
        ensures
            r@ == self@,
    {
        &self.erased
    }

    /// The untyped tree of this expression, by value.
    pub fn into_erased(self) -> (r: ErasedExpr)
        ensures
            r@ == self@,
    {
        self.erased
    }

    pub(crate) fn compare<E: IntoExpr<T>>(&self, op: BinOp, rhs: E) -> (r: Expr<bool>)
        ensures
            r@ == binary_view(op, self@, rhs.spec_expr()),
    {
        Expr::new(binary(op, copy_expr(&self.erased), rhs.into_expr().erased))
    }

    pub fn eq<E: IntoExpr<T>>(&self, rhs: E) -> (r: Expr<bool>)
        ensures
            r@ == binary_view(BinOp::Eq, self@, rhs.spec_expr()),
    {
        self.compare(BinOp::Eq, rhs)
    }

    pub fn neq<E: IntoExpr<T>>(&self, rhs: E) -> (r: Expr<bool>)
        ensures
            r@ == binary_view(BinOp::Neq, self@, rhs.spec_expr()),
    {
        self.compare(BinOp::Neq, rhs)
    }
}

impl<T: Ordered> Expr<T> {
    pub fn lt<E: IntoExpr<T>>(&self, rhs: E) -> (r: Expr<bool>)
        ensures
            r@ == binary_view(BinOp::Lt, self@, rhs.spec_expr()),
    {
        self.compare(BinOp::Lt, rhs)
    }

    pub fn lte<E: IntoExpr<T>>(&self, rhs: E) -> (r: Expr<bool>)
        ensures
            r@ == binary_view(BinOp::Lte, self@, rhs.spec_expr()),
    {
        self.compare(BinOp::Lte, rhs)
    }

    pub fn gt<E: IntoExpr<T>>(&self, rhs: E) -> (r: Expr<bool>)
        ensures
            r@ == binary_view(BinOp::Gt, self@, rhs.spec_expr()),
    {
        self.compare(BinOp::Gt, rhs)
    }

    pub fn gte<E: IntoExpr<T>>(&self, rhs: E) -> (r: Expr<bool>)
        ensures
            r@ == binary_view(BinOp::Gte, self@, rhs.spec_expr()),
    {
        self.compare(BinOp::Gte, rhs)
    }
}

impl Expr<bool> {
    pub fn and<E: IntoExpr<bool>>(&self, rhs: E) -> (r: Expr<bool>)
        ensures
            r@ == binary_view(BinOp::And, self@, rhs.spec_expr()),
    {
        self.compare(BinOp::And, rhs)
    }

    pub fn or<E: IntoExpr<bool>>(&self, rhs: E) -> (r: Expr<bool>)
        ensures
            r@ == binary_view(BinOp::Or, self@, rhs.spec_expr()),
    {
        self.compare(BinOp::Or, rhs)
    }

    pub fn xor<E: IntoExpr<bool>>(&self, rhs: E) -> (r: Expr<bool>)
        ensures
            r@ == binary_view(BinOp::Xor, self@, rhs.spec_expr()),
    {
        self.compare(BinOp::Xor, rhs)
    }
}

/// The lookup of element `index` in `object`.
pub open spec fn lookup_view(object: ExprView, index: ExprView) -> ExprView {
    ExprView::ArrayLookup { object: Box::new(object), index: Box::new(index) }
}

impl<T> Expr<[T]> {
    pub fn at<I: IntoExpr<i32>>(&self, index: I) -> (r: Expr<T>)
        ensures
            r@ == lookup_view(self@, index.spec_expr()),
    {
        Expr::new(
            ErasedExpr::ArrayLookup {
                object: Box::new(copy_expr(&self.erased)),
                index: Box::new(index.into_expr().erased),
            },
        )
    }
}

impl<T, const N: usize> Expr<[T; N]> {
    pub fn at<I: IntoExpr<i32>>(&self, index: I) -> (r: Expr<T>)
        ensures
            r@ == lookup_view(self@, index.spec_expr()),
    {
        Expr::new(
            ErasedExpr::ArrayLookup {
                object: Box::new(copy_expr(&self.erased)),
                index: Box::new(index.into_expr().erased),
            },
        )
    }
}

impl<T: ?Sized> Clone for Expr<T> {
    fn clone(&self) -> (r: Self)
        ensures
            r@ == self@,
    {
        Expr::new(copy_expr(&self.erased))
    }
}

/// Shader types whose values are ordered (`<`, `<=`, `>`, `>=`).
pub trait Ordered {}

impl Ordered for i32 {}

impl Ordered for u32 {}

impl Ordered for Float {}

impl Ordered for bool {}

/// Host values that can be written as a literal expression.
pub trait Literal: ToType + Sized {
    /// The literal node for this value.
    spec fn spec_lit(&self) -> ExprView;

    fn to_erased(&self) -> (r: ErasedExpr)
        ensures
            r@ == self.spec_lit(),
    ;
}

impl Literal for i32 {
    open spec fn spec_lit(&self) -> ExprView {
        ExprView::LitInt(*self)
    }

    fn to_erased(&self) -> (r: ErasedExpr) {
        ErasedExpr::LitInt(*self)
    }
}

impl Literal for u32 {
    open spec fn spec_lit(&self) -> ExprView {
        ExprView::LitUInt(*self)
    }

    fn to_erased(&self) -> (r: ErasedExpr) {
        ErasedExpr::LitUInt(*self)
    }
}

impl Literal for Float {
    open spec fn spec_lit(&self) -> ExprView {
        ExprView::LitFloat(*self)
    }

    fn to_erased(&self) -> (r: ErasedExpr) {
        ErasedExpr::LitFloat(*self)
    }
}

impl Literal for bool {
    open spec fn spec_lit(&self) -> ExprView {
        ExprView::LitBool(*self)
    }

    fn to_erased(&self) -> (r: ErasedExpr) {
        ErasedExpr::LitBool(*self)
    }
}

impl Literal for V2<i32> {
    open spec fn spec_lit(&self) -> ExprView {
        ExprView::LitInt2(self.0)
    }

    fn to_erased(&self) -> (r: ErasedExpr) {
        ErasedExpr::LitInt2(self.0)
    }
}

impl Literal for V2<u32> {
    open spec fn spec_lit(&self) -> ExprView {
        ExprView::LitUInt2(self.0)
    }

    fn to_erased(&self) -> (r: ErasedExpr) {
        ErasedExpr::LitUInt2(self.0)
    }
}

impl Literal for V2<Float> {
    open spec fn spec_lit(&self) -> ExprView {
        ExprView::LitFloat2(self.0)
    }

    fn to_erased(&self) -> (r: ErasedExpr) {
        ErasedExpr::LitFloat2(self.0)
    }
}

impl Literal for V2<bool> {
    open spec fn spec_lit(&self) -> ExprView {
        ExprView::LitBool2(self.0)
    }

    fn to_erased(&self) -> (r: ErasedExpr) {
        ErasedExpr::LitBool2(self.0)
    }
}

impl Literal for V3<i32> {
    open spec fn spec_lit(&self) -> ExprView {
        ExprView::LitInt3(self.0)
    }

    fn to_erased(&self) -> (r: ErasedExpr) {
        ErasedExpr::LitInt3(self.0)
    }
}

impl Literal for V3<u32> {
    open spec fn spec_lit(&self) -> ExprView {
        ExprView::LitUInt3(self.0)
    }

    fn to_erased(&self) -> (r: ErasedExpr) {
        ErasedExpr::LitUInt3(self.0)
    }
}

impl Literal for V3<Float> {
    open spec fn spec_lit(&self) -> ExprView {
        ExprView::LitFloat3(self.0)
    }

    fn to_erased(&self) -> (r: ErasedExpr) {
        ErasedExpr::LitFloat3(self.0)
    }
}

impl Literal for V3<bool> {
    open spec fn spec_lit(&self) -> ExprView {
        ExprView::LitBool3(self.0)
    }

    fn to_erased(&self) -> (r: ErasedExpr) {
        ErasedExpr::LitBool3(self.0)
    }
}

impl Literal for V4<i32> {
    open spec fn spec_lit(&self) -> ExprView {
        ExprView::LitInt4(self.0)
    }

    fn to_erased(&self) -> (r: ErasedExpr) {
        ErasedExpr::LitInt4(self.0)
    }
}

impl Literal for V4<u32> {
    open spec fn spec_lit(&self) -> ExprView {
        ExprView::LitUInt4(self.0)
    }

    fn to_erased(&self) -> (r: ErasedExpr) {
        ErasedExpr::LitUInt4(self.0)
    }
}

impl Literal for V4<Float> {
    open spec fn spec_lit(&self) -> ExprView {
        ExprView::LitFloat4(self.0)
    }

    fn to_erased(&self) -> (r: ErasedExpr) {
        ErasedExpr::LitFloat4(self.0)
    }
}

impl Literal for V4<bool> {
    open spec fn spec_lit(&self) -> ExprView {
        ExprView::LitBool4(self.0)
    }

    fn to_erased(&self) -> (r: ErasedExpr) {
        ErasedExpr::LitBool4(self.0)
    }
}

impl<T: Literal, const N: usize> Literal for [T; N] {
    open spec fn spec_lit(&self) -> ExprView {
        ExprView::Array(Self::spec_ty(), Seq::new(N as nat, |i: int| self@[i].spec_lit()))
    }

    fn to_erased(&self) -> (r: ErasedExpr) {
        let ty = Self::ty();
        let mut elems: Vec<ErasedExpr> = Vec::new();
        let mut i: usize = 0;
        while i < N
            invariant
                i <= N,
                elems@.len() == i,
                forall|j: int| 0 <= j < i ==> (#[trigger] elems@[j])@ == self@[j].spec_lit(),
            decreases N - i,
        {
            elems.push(self[i].to_erased());
            i = i + 1;
        }
        let r = ErasedExpr::Array(ty, elems);
        proof {
            assert(r@->Array_1 =~= self.spec_lit()->Array_1);
        }
        r
    }
}

/// Values that a builder method accepts where an `Expr<T>` is expected: typed
/// expressions and variables, by value or by reference, and host literals.
pub trait IntoExpr<T: ?Sized> {
    /// The tree of the expression that this value stands for.
    spec fn spec_expr(&self) -> ExprView;

    fn into_expr(self) -> (r: Expr<T>)
        ensures
            r@ == self.spec_expr(),
    ;
}

impl<T: ?Sized> IntoExpr<T> for Expr<T> {
    open spec fn spec_expr(&self) -> ExprView {
        self@
    }

    fn into_expr(self) -> (r: Expr<T>) {
        self
    }
}

impl<'a, T: ?Sized> IntoExpr<T> for &'a Expr<T> {
    open spec fn spec_expr(&self) -> ExprView {
        (*self)@
    }

    fn into_expr(self) -> (r: Expr<T>) {
        self.clone()
    }
}

impl<T: ?Sized> IntoExpr<T> for Var<T> {
    open spec fn spec_expr(&self) -> ExprView {
        self@
    }

    fn into_expr(self) -> (r: Expr<T>) {
        self.0
    }
}

impl<'a, T: ?Sized> IntoExpr<T> for &'a Var<T> {
    open spec fn spec_expr(&self) -> ExprView {
        (*self)@
    }

    fn into_expr(self) -> (r: Expr<T>) {
        self.to_expr()
    }
}

impl<T: Literal> IntoExpr<T> for T {
    open spec fn spec_expr(&self) -> ExprView {
        self.spec_lit()
    }

    fn into_expr(self) -> (r: Expr<T>) {
        Expr::new(self.to_erased())
    }
}

impl<'a, T: Literal> IntoExpr<T> for &'a T {
    open spec fn spec_expr(&self) -> ExprView {
        (*self).spec_lit()
    }

    fn into_expr(self) -> (r: Expr<T>) {
        Expr::new(self.to_erased())
    }
}

impl<T: Literal> From<T> for Expr<T> {
    fn from(v: T) -> (r: Self)
        ensures
            r@ == v.spec_lit(),
    {
        Expr::new(v.to_erased())
    }
}

// `Expr` values are not determined by their view, so the result is described by the
// postcondition of `from` alone.
impl<T: Literal> vstd::std_specs::convert::FromSpecImpl<T> for Expr<T> {
    open spec fn obeys_from_spec() -> bool {
        false
    }

    open spec fn from_spec(v: T) -> Self {
        arbitrary()
    }
}

impl<'a, T: Literal> From<&'a T> for Expr<T> {
    fn from(v: &'a T) -> (r: Self)
        ensures
            r@ == v.spec_lit(),
    {
        Expr::new(v.to_erased())
    }
}

impl<'a, T: Literal> vstd::std_specs::convert::FromSpecImpl<&'a T> for Expr<T> {
    open spec fn obeys_from_spec() -> bool {
        false
    }

    open spec fn from_spec(v: &'a T) -> Self {
        arbitrary()
    }
}

impl<'a, T: ?Sized> From<&'a Expr<T>> for Expr<T> {
    fn from(e: &'a Expr<T>) -> (r: Self)
        ensures
            r@ == e@,
    {
        e.clone()
    }
}

impl<'a, T: ?Sized> vstd::std_specs::convert::FromSpecImpl<&'a Expr<T>> for Expr<T> {
    open spec fn obeys_from_spec() -> bool {
        false
    }

    open spec fn from_spec(e: &'a Expr<T>) -> Self {
        arbitrary()
    }
}

/// A typed handle on something that can be assigned: a local, a global, a
/// writable built-in, or an element or field of one.
#[derive(Debug)]
pub struct Var<T: ?Sized>(Expr<T>);

impl<T: ?Sized> View for Var<T> {
    type V = ExprView;

    closed spec fn view(&self) -> ExprView {
        self.0@
    }
}

impl<T: ?Sized> Var<T> {
    pub fn new(handle: ScopedHandle) -> (r: Self)
        ensures
            r@ == ExprView::MutVar(handle),
    {
        Var(Expr::new(ErasedExpr::MutVar(handle)))
    }

    pub(crate) fn new_field(erased: ErasedExpr) -> (r: Self)
        ensures
            r@ == erased@,
    {
        Var(Expr::new(erased))
    }

    pub(crate) fn from_expr(e: Expr<T>) -> (r: Self)
        ensures
            r@ == e@,
    {
        Var(e)
    }

    pub fn to_expr(&self) -> (r: Expr<T>)
        ensures
            r@ == self@,
    {
        self.0.clone()
    }

    /// The untyped tree of the variable reference.
    pub fn erased(&self) -> (r: &ErasedExpr)
        ensures
            r@ == self@,
    {
        self.0.erased()
    }
}

impl<T> Var<[T]> {
    pub fn at<I: IntoExpr<i32>>(&self, index: I) -> (r: Var<T>)
        ensures
            r@ == lookup_view(self@, index.spec_expr()),
    {
        Var(self.to_expr().at(index))
    }
}

impl<T: ?Sized> std::ops::Deref for Var<T> {
    type Target = Expr<T>;

    fn deref(&self) -> (r: &Expr<T>)
        ensures
            r@ == self@,
    {
        &self.0
    }
}

impl<T: ?Sized> From<Var<T>> for Expr<T> {
    fn from(v: Var<T>) -> (r: Self)
        ensures
            r@ == v@,
    {
        v.0
    }
}

impl<T: ?Sized> vstd::std_specs::convert::FromSpecImpl<Var<T>> for Expr<T> {
    open spec fn obeys_from_spec() -> bool {
        false
    }

    open spec fn from_spec(v: Var<T>) -> Self {
        arbitrary()
    }
}

impl<'a, T: ?Sized> From<&'a Var<T>> for Expr<T> {
    fn from(v: &'a Var<T>) -> (r: Self)
        ensures
            r@ == v@,
    {
        v.to_expr()
    }
}

impl<'a, T: ?Sized> vstd::std_specs::convert::FromSpecImpl<&'a Var<T>> for Expr<T> {
    open spec fn obeys_from_spec() -> bool {
        false
    }

    open spec fn from_spec(v: &'a Var<T>) -> Self {
        arbitrary()
    }
}

impl<'a, T: ?Sized> From<&'a Var<T>> for Var<T> {
    fn from(v: &'a Var<T>) -> (r: Self)
        ensures
            r@ == v@,
    {
        Var(v.to_expr())
    }
}

impl<'a, T: ?Sized> vstd::std_specs::convert::FromSpecImpl<&'a Var<T>> for Var<T> {
    open spec fn obeys_from_spec() -> bool {
        false
    }

    open spec fn from_spec(v: &'a Var<T>) -> Self {
        arbitrary()
    }
}

/// The node that selects `sw` from `base`.
pub open spec fn swizzle_view(base: ExprView, sw: Swizzle) -> ExprView {
    ExprView::Swizzle(Box::new(base), sw)
}

/// Vectors whose components can be selected by a selector of type `S`.
pub trait Swizzlable<S>: View<V = ExprView> + Sized {
    /// The swizzle that the selector `sw` stands for.
    spec fn spec_swizzle(sw: S) -> Swizzle;

    fn swizzle(&self, sw: S) -> (r: Self)
        ensures
            r@ == swizzle_view(self@, Self::spec_swizzle(sw)),
    ;
}

impl<T> Swizzlable<SwizzleSelector> for Expr<V2<T>> {
    open spec fn spec_swizzle(sw: SwizzleSelector) -> Swizzle {
        Swizzle::D1(sw)
    }

    fn swizzle(&self, sw: SwizzleSelector) -> (r: Self) {
        Expr::new(ErasedExpr::Swizzle(Box::new(copy_expr(&self.erased)), Swizzle::D1(sw)))
    }
}

impl<T> Swizzlable<[SwizzleSelector; 2]> for Expr<V2<T>> {
    open spec fn spec_swizzle(sw: [SwizzleSelector; 2]) -> Swizzle {
        Swizzle::D2(sw[0], sw[1])
    }

    fn swizzle(&self, sw: [SwizzleSelector; 2]) -> (r: Self) {
        Expr::new(ErasedExpr::Swizzle(Box::new(copy_expr(&self.erased)), Swizzle::D2(sw[0], sw[1])))
    }
}

impl<T> Swizzlable<SwizzleSelector> for Expr<V3<T>> {
    open spec fn spec_swizzle(sw: SwizzleSelector) -> Swizzle {
        Swizzle::D1(sw)
    }

    fn swizzle(&self, sw: SwizzleSelector) -> (r: Self) {
        Expr::new(ErasedExpr::Swizzle(Box::new(copy_expr(&self.erased)), Swizzle::D1(sw)))
    }
}

impl<T> Swizzlable<[SwizzleSelector; 2]> for Expr<V3<T>> {
    open spec fn spec_swizzle(sw: [SwizzleSelector; 2]) -> Swizzle {
        Swizzle::D2(sw[0], sw[1])
    }

    fn swizzle(&self, sw: [SwizzleSelector; 2]) -> (r: Self) {
        Expr::new(ErasedExpr::Swizzle(Box::new(copy_expr(&self.erased)), Swizzle::D2(sw[0], sw[1])))
    }
}

impl<T> Swizzlable<[SwizzleSelector; 3]> for Expr<V3<T>> {
    open spec fn spec_swizzle(sw: [SwizzleSelector; 3]) -> Swizzle {
        Swizzle::D3(sw[0], sw[1], sw[2])
    }

    fn swizzle(&self, sw: [SwizzleSelector; 3]) -> (r: Self) {
        Expr::new(ErasedExpr::Swizzle(Box::new(copy_expr(&self.erased)), Swizzle::D3(sw[0], sw[1], sw[2])))
    }
}

impl<T> Swizzlable<SwizzleSelector> for Expr<V4<T>> {
    open spec fn spec_swizzle(sw: SwizzleSelector) -> Swizzle {
        Swizzle::D1(sw)
    }

    fn swizzle(&self, sw: SwizzleSelector) -> (r: Self) {
        Expr::new(ErasedExpr::Swizzle(Box::new(copy_expr(&self.erased)), Swizzle::D1(sw)))
    }
}

impl<T> Swizzlable<[SwizzleSelector; 2]> for Expr<V4<T>> {
    open spec fn spec_swizzle(sw: [SwizzleSelector; 2]) -> Swizzle {
        Swizzle::D2(sw[0], sw[1])
    }

    fn swizzle(&self, sw: [SwizzleSelector; 2]) -> (r: Self) {
        Expr::new(ErasedExpr::Swizzle(Box::new(copy_expr(&self.erased)), Swizzle::D2(sw[0], sw[1])))
    }
}

impl<T> Swizzlable<[SwizzleSelector; 3]> for Expr<V4<T>> {
    open spec fn spec_swizzle(sw: [SwizzleSelector; 3]) -> Swizzle {
        Swizzle::D3(sw[0], sw[1], sw[2])
    }

    fn swizzle(&self, sw: [SwizzleSelector; 3]) -> (r: Self) {
        Expr::new(ErasedExpr::Swizzle(Box::new(copy_expr(&self.erased)), Swizzle::D3(sw[0], sw[1], sw[2])))
    }
}

impl<T> Swizzlable<[SwizzleSelector; 4]> for Expr<V4<T>> {
    open spec fn spec_swizzle(sw: [SwizzleSelector; 4]) -> Swizzle {
        Swizzle::D4(sw[0], sw[1], sw[2], sw[3])
    }

    fn swizzle(&self, sw: [SwizzleSelector; 4]) -> (r: Self) {
        Expr::new(ErasedExpr::Swizzle(Box::new(copy_expr(&self.erased)), Swizzle::D4(sw[0], sw[1], sw[2], sw[3])))
    }
}

} // verus!
