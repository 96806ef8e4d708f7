//! Function construction: turns host closures into function definitions, and
//! typed handles into call expressions.

use vstd::prelude::*;

use std::marker::PhantomData;

use crate::expr::{ErasedExpr, ErasedFunHandle, ExprView, ScopedHandle};
use crate::scope::{ErasedReturn, ErasedScope, ReturnView, Scope, ScopeView, ToReturn};
use crate::typed::Expr;
use crate::types::{ToType, Type, TypeView};

verus! {

/// An untyped function: its argument types, its body and what it returns.
#[derive(Debug, PartialEq)]
pub struct ErasedFun {
    pub args: Vec<Type>,
    pub scope: ErasedScope,
    pub ret: ErasedReturn,
}

/// The mathematical value of an [`ErasedFun`].
pub struct FunView {
    pub args: Seq<TypeView>,
    pub scope: ScopeView,
    pub ret: ReturnView,
}

impl View for ErasedFun {
    type V = FunView;

    open spec fn view(&self) -> FunView {
        FunView { args: Seq::new(self.args@.len(), |i: int| self.args@[i]@), scope: self.scope@, ret: self.ret@ }
    }
}

impl ErasedFun {
    pub fn new(args: Vec<Type>, scope: ErasedScope, ret: ErasedReturn) -> (r: Self)
        ensures
            r.args == args,
            r.scope == scope,
            r.ret == ret,
    {
        ErasedFun { args, scope, ret }
    }
}

/// A function definition returning `R` and taking arguments `A`.
#[derive(Debug)]
pub struct FunDef<R, A> {
    erased: ErasedFun,
    _phantom: PhantomData<(R, A)>,
}

impl<R, A> View for FunDef<R, A> {
    type V = FunView;

    closed spec fn view(&self) -> FunView {
        self.erased@
    }
}

impl<R, A> FunDef<R, A> {
    fn new(erased: ErasedFun) -> (r: Self)
        ensures
            r@ == erased@,
    {
        FunDef { erased, _phantom: PhantomData }
    }

    /// The untyped definition.
    pub fn erased(&self) -> (r: &ErasedFun)
        ensures
            r@ == self@,
    {
        &self.erased
    }

    /// The untyped definition, by value.
    pub fn into_erased(self) -> (r: ErasedFun)
        ensures
            r@ == self@,
    {
        self.erased
    }
}

/// The reference to argument `k` of the enclosing function.
pub open spec fn arg_view(k: u16) -> ExprView {
    ExprView::MutVar(ScopedHandle::FunArg(k))
}

/// Host closures that describe a function returning `R` with arguments `A`: the
/// closure gets the body's scope and one expression per argument.
pub trait ToFun<R: ToReturn, A> {
    /// The types of the arguments, in order.
    spec fn spec_arg_types() -> Seq<TypeView>;

    /// The closure may be called on a fresh body scope and the argument expressions.
    spec fn accepts(&self) -> bool;

    /// The closure, called on the body scope `m` and on the expressions of its
    /// arguments (argument `k` read as `FunArg(k)`), may return `ret`.
    spec fn runs(&self, m: &mut Scope<R>, ret: R) -> bool;

    /// Runs the closure on a fresh body block; the definition holds that block,
    /// numbered 0, and what the closure returned.
    fn build_fn(self) -> (r: FunDef<R, A>)
        requires
            self.accepts(),
        ensures
            exists|m: &mut Scope<R>, ret: R|
                mut_ref_current(m)@ == ScopeView::fresh(0) && #[trigger] self.runs(m, ret) && r@ == (FunView {
                    args: Self::spec_arg_types(),
                    scope: ScopeView { id: 0, ..mut_ref_future(m)@ },
                    ret: ret.spec_return(),
                }),
    ;
}

impl<F, R> ToFun<R, ()> for F
where
    F: Fn(&mut Scope<R>) -> R,
    R: ToReturn,
{
    open spec fn accepts(&self) -> bool {
        forall|s: &mut Scope<R>|
            mut_ref_current(s)@ == ScopeView::fresh(0) ==> #[trigger] self.requires((s,))
    }

    open spec fn spec_arg_types() -> Seq<TypeView> {
        Seq::empty()
    }

    open spec fn runs(&self, m: &mut Scope<R>, ret: R) -> bool {
        self.ensures((m,), ret)
    }

    fn build_fn(self) -> (r: FunDef<R, ()>) {
        let mut args: Vec<Type> = Vec::new();
        let mut scope: Scope<R> = Scope::new(0);
        let ghost scope_init = scope;
        let ret = self(&mut scope);
        let ghost ret_g = ret;
        let erased = ErasedFun::new(args, ErasedScope::body(scope.into_erased()), ret.to_return());
        proof {
            assert(erased@.args =~= Seq::empty());
            assert(exists|m: &mut Scope<R>| #[trigger] self.ensures((m,), ret_g) && mut_ref_current(m) == scope_init && mut_ref_future(m) == scope);
            assert forall|m: &mut Scope<R>| #[trigger] self.ensures((m,), ret_g) implies self.runs(m, ret_g) by {}
            assert(exists|m: &mut Scope<R>| #[trigger] self.runs(m, ret_g) && mut_ref_current(m) == scope_init && mut_ref_future(m) == scope);
        }
        FunDef::new(erased)
    }
}

impl<F, R, A0> ToFun<R, Expr<A0>> for F
where
    F: Fn(&mut Scope<R>, Expr<A0>) -> R,
    R: ToReturn,
    A0: ToType,
{
    open spec fn accepts(&self) -> bool {
        forall|s: &mut Scope<R>, a0: Expr<A0>|
            mut_ref_current(s)@ == ScopeView::fresh(0) && a0@ == arg_view(0) ==> #[trigger] self.requires((s, a0,))
    }

    open spec fn spec_arg_types() -> Seq<TypeView> {
        seq![A0::spec_ty()]
    }

    open spec fn runs(&self, m: &mut Scope<R>, ret: R) -> bool {
        exists|a0: Expr<A0>| a0@ == arg_view(0) && #[trigger] self.ensures((m, a0,), ret)
    }

    fn build_fn(self) -> (r: FunDef<R, Expr<A0>>) {
        let a0: Expr<A0> = Expr::new(ErasedExpr::MutVar(ScopedHandle::fun_arg(0)));
        let ghost g0 = a0;
        let mut args: Vec<Type> = Vec::new();
        args.push(A0::ty());
        let mut scope: Scope<R> = Scope::new(0);
        let ghost scope_init = scope;
        let ret = self(&mut scope, a0);
        let ghost ret_g = ret;
        let erased = ErasedFun::new(args, ErasedScope::body(scope.into_erased()), ret.to_return());
        proof {
            assert(erased@.args =~= seq![A0::spec_ty()]);
            assert(exists|m: &mut Scope<R>| #[trigger] self.ensures((m, g0,), ret_g) && mut_ref_current(m) == scope_init && mut_ref_future(m) == scope);
            assert forall|m: &mut Scope<R>| #[trigger] self.ensures((m, g0,), ret_g) implies self.runs(m, ret_g) by {}
            assert(exists|m: &mut Scope<R>| #[trigger] self.runs(m, ret_g) && mut_ref_current(m) == scope_init && mut_ref_future(m) == scope);
        }
        FunDef::new(erased)
    }
}

impl<F, R, A0, A1> ToFun<R, (Expr<A0>, Expr<A1>)> for F
where
    F: Fn(&mut Scope<R>, Expr<A0>, Expr<A1>) -> R,
    R: ToReturn,
    A0: ToType,
    A1: ToType,
{
    open spec fn accepts(&self) -> bool {
        forall|s: &mut Scope<R>, a0: Expr<A0>, a1: Expr<A1>|
            mut_ref_current(s)@ == ScopeView::fresh(0) && a0@ == arg_view(0) && a1@ == arg_view(1) ==> #[trigger] self.requires((s, a0, a1,))
    }

    open spec fn spec_arg_types() -> Seq<TypeView> {
        seq![A0::spec_ty(), A1::spec_ty()]
    }

    open spec fn runs(&self, m: &mut Scope<R>, ret: R) -> bool {
        exists|a0: Expr<A0>, a1: Expr<A1>| a0@ == arg_view(0) && a1@ == arg_view(1) && #[trigger] self.ensures((m, a0, a1,), ret)
    }

    fn build_fn(self) -> (r: FunDef<R, (Expr<A0>, Expr<A1>)>) {
        let a0: Expr<A0> = Expr::new(ErasedExpr::MutVar(ScopedHandle::fun_arg(0)));
        let ghost g0 = a0;
        let a1: Expr<A1> = Expr::new(ErasedExpr::MutVar(ScopedHandle::fun_arg(1)));
        let ghost g1 = a1;
        let mut args: Vec<Type> = Vec::new();
        args.push(A0::ty());
        args.push(A1::ty());
        let mut scope: Scope<R> = Scope::new(0);
        let ghost scope_init = scope;
        let ret = self(&mut scope, a0, a1);
        let ghost ret_g = ret;
        let erased = ErasedFun::new(args, ErasedScope::body(scope.into_erased()), ret.to_return());
        proof {
            assert(erased@.args =~= seq![A0::spec_ty(), A1::spec_ty()]);
            assert(exists|m: &mut Scope<R>| #[trigger] self.ensures((m, g0, g1,), ret_g) && mut_ref_current(m) == scope_init && mut_ref_future(m) == scope);
            assert forall|m: &mut Scope<R>| #[trigger] self.ensures((m, g0, g1,), ret_g) implies self.runs(m, ret_g) by {}
            assert(exists|m: &mut Scope<R>| #[trigger] self.runs(m, ret_g) && mut_ref_current(m) == scope_init && mut_ref_future(m) == scope);
        }
        FunDef::new(erased)
    }
}

impl<F, R, A0, A1, A2> ToFun<R, (Expr<A0>, Expr<A1>, Expr<A2>)> for F
where
    F: Fn(&mut Scope<R>, Expr<A0>, Expr<A1>, Expr<A2>) -> R,
    R: ToReturn,
    A0: ToType,
    A1: ToType,
    A2: ToType,
{
    open spec fn accepts(&self) -> bool {
        forall|s: &mut Scope<R>, a0: Expr<A0>, a1: Expr<A1>, a2: Expr<A2>|
            mut_ref_current(s)@ == ScopeView::fresh(0) && a0@ == arg_view(0) && a1@ == arg_view(1) && a2@ == arg_view(2) ==> #[trigger] self.requires((s, a0, a1, a2,))
    }

    open spec fn spec_arg_types() -> Seq<TypeView> {
        seq![A0::spec_ty(), A1::spec_ty(), A2::spec_ty()]
    }

    open spec fn runs(&self, m: &mut Scope<R>, ret: R) -> bool {
        exists|a0: Expr<A0>, a1: Expr<A1>, a2: Expr<A2>| a0@ == arg_view(0) && a1@ == arg_view(1) && a2@ == arg_view(2) && #[trigger] self.ensures((m, a0, a1, a2,), ret)
    }

    fn build_fn(self) -> (r: FunDef<R, (Expr<A0>, Expr<A1>, Expr<A2>)>) {
        let a0: Expr<A0> = Expr::new(ErasedExpr::MutVar(ScopedHandle::fun_arg(0)));
        let ghost g0 = a0;
        let a1: Expr<A1> = Expr::new(ErasedExpr::MutVar(ScopedHandle::fun_arg(1)));
        let ghost g1 = a1;
        let a2: Expr<A2> = Expr::new(ErasedExpr::MutVar(ScopedHandle::fun_arg(2)));
        let ghost g2 = a2;
        let mut args: Vec<Type> = Vec::new();
        args.push(A0::ty());
        args.push(A1::ty());
        args.push(A2::ty());
        let mut scope: Scope<R> = Scope::new(0);
        let ghost scope_init = scope;
        let ret = self(&mut scope, a0, a1, a2);
        let ghost ret_g = ret;
        let erased = ErasedFun::new(args, ErasedScope::body(scope.into_erased()), ret.to_return());
        proof {
            assert(erased@.args =~= seq![A0::spec_ty(), A1::spec_ty(), A2::spec_ty()]);
            assert(exists|m: &mut Scope<R>| #[trigger] self.ensures((m, g0, g1, g2,), ret_g) && mut_ref_current(m) == scope_init && mut_ref_future(m) == scope);
            assert forall|m: &mut Scope<R>| #[trigger] self.ensures((m, g0, g1, g2,), ret_g) implies self.runs(m, ret_g) by {}
            assert(exists|m: &mut Scope<R>| #[trigger] self.runs(m, ret_g) && mut_ref_current(m) == scope_init && mut_ref_future(m) == scope);
        }
        FunDef::new(erased)
    }
}

impl<F, R, A0, A1, A2, A3> ToFun<R, (Expr<A0>, Expr<A1>, Expr<A2>, Expr<A3>)> for F
where
    F: Fn(&mut Scope<R>, Expr<A0>, Expr<A1>, Expr<A2>, Expr<A3>) -> R,
    R: ToReturn,
    A0: ToType,
    A1: ToType,
    A2: ToType,
    A3: ToType,
{
    open spec fn accepts(&self) -> bool {
        forall|s: &mut Scope<R>, a0: Expr<A0>, a1: Expr<A1>, a2: Expr<A2>, a3: Expr<A3>|
            mut_ref_current(s)@ == ScopeView::fresh(0) && a0@ == arg_view(0) && a1@ == arg_view(1) && a2@ == arg_view(2) && a3@ == arg_view(3) ==> #[trigger] self.requires((s, a0, a1, a2, a3,))
    }

    open spec fn spec_arg_types() -> Seq<TypeView> {
        seq![A0::spec_ty(), A1::spec_ty(), A2::spec_ty(), A3::spec_ty()]
    }

    open spec fn runs(&self, m: &mut Scope<R>, ret: R) -> bool {
        exists|a0: Expr<A0>, a1: Expr<A1>, a2: Expr<A2>, a3: Expr<A3>| a0@ == arg_view(0) && a1@ == arg_view(1) && a2@ == arg_view(2) && a3@ == arg_view(3) && #[trigger] self.ensures((m, a0, a1, a2, a3,), ret)
    }

    fn build_fn(self) -> (r: FunDef<R, (Expr<A0>, Expr<A1>, Expr<A2>, Expr<A3>)>) {
        let a0: Expr<A0> = Expr::new(ErasedExpr::MutVar(ScopedHandle::fun_arg(0)));
        let ghost g0 = a0;
        let a1: Expr<A1> = Expr::new(ErasedExpr::MutVar(ScopedHandle::fun_arg(1)));
        let ghost g1 = a1;
        let a2: Expr<A2> = Expr::new(ErasedExpr::MutVar(ScopedHandle::fun_arg(2)));
        let ghost g2 = a2;
        let a3: Expr<A3> = Expr::new(ErasedExpr::MutVar(ScopedHandle::fun_arg(3)));
        let ghost g3 = a3;
        let mut args: Vec<Type> = Vec::new();
        args.push(A0::ty());
        args.push(A1::ty());
        args.push(A2::ty());
        args.push(A3::ty());
        let mut scope: Scope<R> = Scope::new(0);
        let ghost scope_init = scope;
        let ret = self(&mut scope, a0, a1, a2, a3);
        let ghost ret_g = ret;
        let erased = ErasedFun::new(args, ErasedScope::body(scope.into_erased()), ret.to_return());
        proof {
            assert(erased@.args =~= seq![A0::spec_ty(), A1::spec_ty(), A2::spec_ty(), A3::spec_ty()]);
            assert(exists|m: &mut Scope<R>| #[trigger] self.ensures((m, g0, g1, g2, g3,), ret_g) && mut_ref_current(m) == scope_init && mut_ref_future(m) == scope);
            assert forall|m: &mut Scope<R>| #[trigger] self.ensures((m, g0, g1, g2, g3,), ret_g) implies self.runs(m, ret_g) by {}
            assert(exists|m: &mut Scope<R>| #[trigger] self.runs(m, ret_g) && mut_ref_current(m) == scope_init && mut_ref_future(m) == scope);
        }
        FunDef::new(erased)
    }
}

impl<F, R, A0, A1, A2, A3, A4> ToFun<R, (Expr<A0>, Expr<A1>, Expr<A2>, Expr<A3>, Expr<A4>)> for F
where
    F: Fn(&mut Scope<R>, Expr<A0>, Expr<A1>, Expr<A2>, Expr<A3>, Expr<A4>) -> R,
    R: ToReturn,
    A0: ToType,
    A1: ToType,
    A2: ToType,
    A3: ToType,
    A4: ToType,
{
    open spec fn accepts(&self) -> bool {
        forall|s: &mut Scope<R>, a0: Expr<A0>, a1: Expr<A1>, a2: Expr<A2>, a3: Expr<A3>, a4: Expr<A4>|
            mut_ref_current(s)@ == ScopeView::fresh(0) && a0@ == arg_view(0) && a1@ == arg_view(1) && a2@ == arg_view(2) && a3@ == arg_view(3) && a4@ == arg_view(4) ==> #[trigger] self.requires((s, a0, a1, a2, a3, a4,))
    }

    open spec fn spec_arg_types() -> Seq<TypeView> {
        seq![A0::spec_ty(), A1::spec_ty(), A2::spec_ty(), A3::spec_ty(), A4::spec_ty()]
    }

    open spec fn runs(&self, m: &mut Scope<R>, ret: R) -> bool {
        exists|a0: Expr<A0>, a1: Expr<A1>, a2: Expr<A2>, a3: Expr<A3>, a4: Expr<A4>| a0@ == arg_view(0) && a1@ == arg_view(1) && a2@ == arg_view(2) && a3@ == arg_view(3) && a4@ == arg_view(4) && #[trigger] self.ensures((m, a0, a1, a2, a3, a4,), ret)
    }

    fn build_fn(self) -> (r: FunDef<R, (Expr<A0>, Expr<A1>, Expr<A2>, Expr<A3>, Expr<A4>)>) {
        let a0: Expr<A0> = Expr::new(ErasedExpr::MutVar(ScopedHandle::fun_arg(0)));
        let ghost g0 = a0;
        let a1: Expr<A1> = Expr::new(ErasedExpr::MutVar(ScopedHandle::fun_arg(1)));
        let ghost g1 = a1;
        let a2: Expr<A2> = Expr::new(ErasedExpr::MutVar(ScopedHandle::fun_arg(2)));
        let ghost g2 = a2;
        let a3: Expr<A3> = Expr::new(ErasedExpr::MutVar(ScopedHandle::fun_arg(3)));
        let ghost g3 = a3;
        let a4: Expr<A4> = Expr::new(ErasedExpr::MutVar(ScopedHandle::fun_arg(4)));
        let ghost g4 = a4;
        let mut args: Vec<Type> = Vec::new();
        args.push(A0::ty());
        args.push(A1::ty());
        args.push(A2::ty());
        args.push(A3::ty());
        args.push(A4::ty());
        let mut scope: Scope<R> = Scope::new(0);
        let ghost scope_init = scope;
        let ret = self(&mut scope, a0, a1, a2, a3, a4);
        let ghost ret_g = ret;
        let erased = ErasedFun::new(args, ErasedScope::body(scope.into_erased()), ret.to_return());
        proof {
            assert(erased@.args =~= seq![A0::spec_ty(), A1::spec_ty(), A2::spec_ty(), A3::spec_ty(), A4::spec_ty()]);
            assert(exists|m: &mut Scope<R>| #[trigger] self.ensures((m, g0, g1, g2, g3, g4,), ret_g) && mut_ref_current(m) == scope_init && mut_ref_future(m) == scope);
            assert forall|m: &mut Scope<R>| #[trigger] self.ensures((m, g0, g1, g2, g3, g4,), ret_g) implies self.runs(m, ret_g) by {}
            assert(exists|m: &mut Scope<R>| #[trigger] self.runs(m, ret_g) && mut_ref_current(m) == scope_init && mut_ref_future(m) == scope);
        }
        FunDef::new(erased)
    }
}

impl<F, R, A0, A1, A2, A3, A4, A5> ToFun<R, (Expr<A0>, Expr<A1>, Expr<A2>, Expr<A3>, Expr<A4>, Expr<A5>)> for F
where
    F: Fn(&mut Scope<R>, Expr<A0>, Expr<A1>, Expr<A2>, Expr<A3>, Expr<A4>, Expr<A5>) -> R,
    R: ToReturn,
    A0: ToType,
    A1: ToType,
    A2: ToType,
    A3: ToType,
    A4: ToType,
    A5: ToType,
{
    open spec fn accepts(&self) -> bool {
        forall|s: &mut Scope<R>, a0: Expr<A0>, a1: Expr<A1>, a2: Expr<A2>, a3: Expr<A3>, a4: Expr<A4>, a5: Expr<A5>|
            mut_ref_current(s)@ == ScopeView::fresh(0) && a0@ == arg_view(0) && a1@ == arg_view(1) && a2@ == arg_view(2) && a3@ == arg_view(3) && a4@ == arg_view(4) && a5@ == arg_view(5) ==> #[trigger] self.requires((s, a0, a1, a2, a3, a4, a5,))
    }

    open spec fn spec_arg_types() -> Seq<TypeView> {
        seq![A0::spec_ty(), A1::spec_ty(), A2::spec_ty(), A3::spec_ty(), A4::spec_ty(), A5::spec_ty()]
    }

    open spec fn runs(&self, m: &mut Scope<R>, ret: R) -> bool {
        exists|a0: Expr<A0>, a1: Expr<A1>, a2: Expr<A2>, a3: Expr<A3>, a4: Expr<A4>, a5: Expr<A5>| a0@ == arg_view(0) && a1@ == arg_view(1) && a2@ == arg_view(2) && a3@ == arg_view(3) && a4@ == arg_view(4) && a5@ == arg_view(5) && #[trigger] self.ensures((m, a0, a1, a2, a3, a4, a5,), ret)
    }

    fn build_fn(self) -> (r: FunDef<R, (Expr<A0>, Expr<A1>, Expr<A2>, Expr<A3>, Expr<A4>, Expr<A5>)>) {
        let a0: Expr<A0> = Expr::new(ErasedExpr::MutVar(ScopedHandle::fun_arg(0)));
        let ghost g0 = a0;
        let a1: Expr<A1> = Expr::new(ErasedExpr::MutVar(ScopedHandle::fun_arg(1)));
        let ghost g1 = a1;
        let a2: Expr<A2> = Expr::new(ErasedExpr::MutVar(ScopedHandle::fun_arg(2)));
        let ghost g2 = a2;
        let a3: Expr<A3> = Expr::new(ErasedExpr::MutVar(ScopedHandle::fun_arg(3)));
        let ghost g3 = a3;
        let a4: Expr<A4> = Expr::new(ErasedExpr::MutVar(ScopedHandle::fun_arg(4)));
        let ghost g4 = a4;
        let a5: Expr<A5> = Expr::new(ErasedExpr::MutVar(ScopedHandle::fun_arg(5)));
        let ghost g5 = a5;
        let mut args: Vec<Type> = Vec::new();
        args.push(A0::ty());
        args.push(A1::ty());
        args.push(A2::ty());
        args.push(A3::ty());
        args.push(A4::ty());
        args.push(A5::ty());
        let mut scope: Scope<R> = Scope::new(0);
        let ghost scope_init = scope;
        let ret = self(&mut scope, a0, a1, a2, a3, a4, a5);
        let ghost ret_g = ret;
        let erased = ErasedFun::new(args, ErasedScope::body(scope.into_erased()), ret.to_return());
        proof {
            assert(erased@.args =~= seq![A0::spec_ty(), A1::spec_ty(), A2::spec_ty(), A3::spec_ty(), A4::spec_ty(), A5::spec_ty()]);
            assert(exists|m: &mut Scope<R>| #[trigger] self.ensures((m, g0, g1, g2, g3, g4, g5,), ret_g) && mut_ref_current(m) == scope_init && mut_ref_future(m) == scope);
            assert forall|m: &mut Scope<R>| #[trigger] self.ensures((m, g0, g1, g2, g3, g4, g5,), ret_g) implies self.runs(m, ret_g) by {}
            assert(exists|m: &mut Scope<R>| #[trigger] self.runs(m, ret_g) && mut_ref_current(m) == scope_init && mut_ref_future(m) == scope);
        }
        FunDef::new(erased)
    }
}

impl<F, R, A0, A1, A2, A3, A4, A5, A6> ToFun<R, (Expr<A0>, Expr<A1>, Expr<A2>, Expr<A3>, Expr<A4>, Expr<A5>, Expr<A6>)> for F
where
    F: Fn(&mut Scope<R>, Expr<A0>, Expr<A1>, Expr<A2>, Expr<A3>, Expr<A4>, Expr<A5>, Expr<A6>) -> R,
    R: ToReturn,
    A0: ToType,
    A1: ToType,
    A2: ToType,
    A3: ToType,
    A4: ToType,
    A5: ToType,
    A6: ToType,
{
    open spec fn accepts(&self) -> bool {
        forall|s: &mut Scope<R>, a0: Expr<A0>, a1: Expr<A1>, a2: Expr<A2>, a3: Expr<A3>, a4: Expr<A4>, a5: Expr<A5>, a6: Expr<A6>|
            mut_ref_current(s)@ == ScopeView::fresh(0) && a0@ == arg_view(0) && a1@ == arg_view(1) && a2@ == arg_view(2) && a3@ == arg_view(3) && a4@ == arg_view(4) && a5@ == arg_view(5) && a6@ == arg_view(6) ==> #[trigger] self.requires((s, a0, a1, a2, a3, a4, a5, a6,))
    }

    open spec fn spec_arg_types() -> Seq<TypeView> {
        seq![A0::spec_ty(), A1::spec_ty(), A2::spec_ty(), A3::spec_ty(), A4::spec_ty(), A5::spec_ty(), A6::spec_ty()]
    }

    open spec fn runs(&self, m: &mut Scope<R>, ret: R) -> bool {
        exists|a0: Expr<A0>, a1: Expr<A1>, a2: Expr<A2>, a3: Expr<A3>, a4: Expr<A4>, a5: Expr<A5>, a6: Expr<A6>| a0@ == arg_view(0) && a1@ == arg_view(1) && a2@ == arg_view(2) && a3@ == arg_view(3) && a4@ == arg_view(4) && a5@ == arg_view(5) && a6@ == arg_view(6) && #[trigger] self.ensures((m, a0, a1, a2, a3, a4, a5, a6,), ret)
    }

    fn build_fn(self) -> (r: FunDef<R, (Expr<A0>, Expr<A1>, Expr<A2>, Expr<A3>, Expr<A4>, Expr<A5>, Expr<A6>)>) {
        let a0: Expr<A0> = Expr::new(ErasedExpr::MutVar(ScopedHandle::fun_arg(0)));
        let ghost g0 = a0;
        let a1: Expr<A1> = Expr::new(ErasedExpr::MutVar(ScopedHandle::fun_arg(1)));
        let ghost g1 = a1;
        let a2: Expr<A2> = Expr::new(ErasedExpr::MutVar(ScopedHandle::fun_arg(2)));
        let ghost g2 = a2;
        let a3: Expr<A3> = Expr::new(ErasedExpr::MutVar(ScopedHandle::fun_arg(3)));
        let ghost g3 = a3;
        let a4: Expr<A4> = Expr::new(ErasedExpr::MutVar(ScopedHandle::fun_arg(4)));
        let ghost g4 = a4;
        let a5: Expr<A5> = Expr::new(ErasedExpr::MutVar(ScopedHandle::fun_arg(5)));
        let ghost g5 = a5;
        let a6: Expr<A6> = Expr::new(ErasedExpr::MutVar(ScopedHandle::fun_arg(6)));
        let ghost g6 = a6;
        let mut args: Vec<Type> = Vec::new();
        args.push(A0::ty());
        args.push(A1::ty());
        args.push(A2::ty());
        args.push(A3::ty());
        args.push(A4::ty());
        args.push(A5::ty());
        args.push(A6::ty());
        let mut scope: Scope<R> = Scope::new(0);
        let ghost scope_init = scope;
        let ret = self(&mut scope, a0, a1, a2, a3, a4, a5, a6);
        let ghost ret_g = ret;
        let erased = ErasedFun::new(args, ErasedScope::body(scope.into_erased()), ret.to_return());
        proof {
            assert(erased@.args =~= seq![A0::spec_ty(), A1::spec_ty(), A2::spec_ty(), A3::spec_ty(), A4::spec_ty(), A5::spec_ty(), A6::spec_ty()]);
            assert(exists|m: &mut Scope<R>| #[trigger] self.ensures((m, g0, g1, g2, g3, g4, g5, g6,), ret_g) && mut_ref_current(m) == scope_init && mut_ref_future(m) == scope);
            assert forall|m: &mut Scope<R>| #[trigger] self.ensures((m, g0, g1, g2, g3, g4, g5, g6,), ret_g) implies self.runs(m, ret_g) by {}
            assert(exists|m: &mut Scope<R>| #[trigger] self.runs(m, ret_g) && mut_ref_current(m) == scope_init && mut_ref_future(m) == scope);
        }
        FunDef::new(erased)
    }
}

impl<F, R, A0, A1, A2, A3, A4, A5, A6, A7> ToFun<R, (Expr<A0>, Expr<A1>, Expr<A2>, Expr<A3>, Expr<A4>, Expr<A5>, Expr<A6>, Expr<A7>)> for F
where
    F: Fn(&mut Scope<R>, Expr<A0>, Expr<A1>, Expr<A2>, Expr<A3>, Expr<A4>, Expr<A5>, Expr<A6>, Expr<A7>) -> R,
    R: ToReturn,
    A0: ToType,
    A1: ToType,
    A2: ToType,
    A3: ToType,
    A4: ToType,
    A5: ToType,
    A6: ToType,
    A7: ToType,
{
    open spec fn accepts(&self) -> bool {
        forall|s: &mut Scope<R>, a0: Expr<A0>, a1: Expr<A1>, a2: Expr<A2>, a3: Expr<A3>, a4: Expr<A4>, a5: Expr<A5>, a6: Expr<A6>, a7: Expr<A7>|
            mut_ref_current(s)@ == ScopeView::fresh(0) && a0@ == arg_view(0) && a1@ == arg_view(1) && a2@ == arg_view(2) && a3@ == arg_view(3) && a4@ == arg_view(4) && a5@ == arg_view(5) && a6@ == arg_view(6) && a7@ == arg_view(7) ==> #[trigger] self.requires((s, a0, a1, a2, a3, a4, a5, a6, a7,))
    }

    open spec fn spec_arg_types() -> Seq<TypeView> {
        seq![A0::spec_ty(), A1::spec_ty(), A2::spec_ty(), A3::spec_ty(), A4::spec_ty(), A5::spec_ty(), A6::spec_ty(), A7::spec_ty()]
    }

    open spec fn runs(&self, m: &mut Scope<R>, ret: R) -> bool {
        exists|a0: Expr<A0>, a1: Expr<A1>, a2: Expr<A2>, a3: Expr<A3>, a4: Expr<A4>, a5: Expr<A5>, a6: Expr<A6>, a7: Expr<A7>| a0@ == arg_view(0) && a1@ == arg_view(1) && a2@ == arg_view(2) && a3@ == arg_view(3) && a4@ == arg_view(4) && a5@ == arg_view(5) && a6@ == arg_view(6) && a7@ == arg_view(7) && #[trigger] self.ensures((m, a0, a1, a2, a3, a4, a5, a6, a7,), ret)
    }

    fn build_fn(self) -> (r: FunDef<R, (Expr<A0>, Expr<A1>, Expr<A2>, Expr<A3>, Expr<A4>, Expr<A5>, Expr<A6>, Expr<A7>)>) {
        let a0: Expr<A0> = Expr::new(ErasedExpr::MutVar(ScopedHandle::fun_arg(0)));
        let ghost g0 = a0;
        let a1: Expr<A1> = Expr::new(ErasedExpr::MutVar(ScopedHandle::fun_arg(1)));
        let ghost g1 = a1;
        let a2: Expr<A2> = Expr::new(ErasedExpr::MutVar(ScopedHandle::fun_arg(2)));
        let ghost g2 = a2;
        let a3: Expr<A3> = Expr::new(ErasedExpr::MutVar(ScopedHandle::fun_arg(3)));
        let ghost g3 = a3;
        let a4: Expr<A4> = Expr::new(ErasedExpr::MutVar(ScopedHandle::fun_arg(4)));
        let ghost g4 = a4;
        let a5: Expr<A5> = Expr::new(ErasedExpr::MutVar(ScopedHandle::fun_arg(5)));
        let ghost g5 = a5;
        let a6: Expr<A6> = Expr::new(ErasedExpr::MutVar(ScopedHandle::fun_arg(6)));
        let ghost g6 = a6;
        let a7: Expr<A7> = Expr::new(ErasedExpr::MutVar(ScopedHandle::fun_arg(7)));
        let ghost g7 = a7;
        let mut args: Vec<Type> = Vec::new();
        args.push(A0::ty());
        args.push(A1::ty());
        args.push(A2::ty());
        args.push(A3::ty());
        args.push(A4::ty());
        args.push(A5::ty());
        args.push(A6::ty());
        args.push(A7::ty());
        let mut scope: Scope<R> = Scope::new(0);
        let ghost scope_init = scope;
        let ret = self(&mut scope, a0, a1, a2, a3, a4, a5, a6, a7);
        let ghost ret_g = ret;
        let erased = ErasedFun::new(args, ErasedScope::body(scope.into_erased()), ret.to_return());
        proof {
            assert(erased@.args =~= seq![A0::spec_ty(), A1::spec_ty(), A2::spec_ty(), A3::spec_ty(), A4::spec_ty(), A5::spec_ty(), A6::spec_ty(), A7::spec_ty()]);
            assert(exists|m: &mut Scope<R>| #[trigger] self.ensures((m, g0, g1, g2, g3, g4, g5, g6, g7,), ret_g) && mut_ref_current(m) == scope_init && mut_ref_future(m) == scope);
            assert forall|m: &mut Scope<R>| #[trigger] self.ensures((m, g0, g1, g2, g3, g4, g5, g6, g7,), ret_g) implies self.runs(m, ret_g) by {}
            assert(exists|m: &mut Scope<R>| #[trigger] self.runs(m, ret_g) && mut_ref_current(m) == scope_init && mut_ref_future(m) == scope);
        }
        FunDef::new(erased)
    }
}

impl<F, R, A0, A1, A2, A3, A4, A5, A6, A7, A8> ToFun<R, (Expr<A0>, Expr<A1>, Expr<A2>, Expr<A3>, Expr<A4>, Expr<A5>, Expr<A6>, Expr<A7>, Expr<A8>)> for F
where
    F: Fn(&mut Scope<R>, Expr<A0>, Expr<A1>, Expr<A2>, Expr<A3>, Expr<A4>, Expr<A5>, Expr<A6>, Expr<A7>, Expr<A8>) -> R,
    R: ToReturn,
    A0: ToType,
    A1: ToType,
    A2: ToType,
    A3: ToType,
    A4: ToType,
    A5: ToType,
    A6: ToType,
    A7: ToType,
    A8: ToType,
{
    open spec fn accepts(&self) -> bool {
        forall|s: &mut Scope<R>, a0: Expr<A0>, a1: Expr<A1>, a2: Expr<A2>, a3: Expr<A3>, a4: Expr<A4>, a5: Expr<A5>, a6: Expr<A6>, a7: Expr<A7>, a8: Expr<A8>|
            mut_ref_current(s)@ == ScopeView::fresh(0) && a0@ == arg_view(0) && a1@ == arg_view(1) && a2@ == arg_view(2) && a3@ == arg_view(3) && a4@ == arg_view(4) && a5@ == arg_view(5) && a6@ == arg_view(6) && a7@ == arg_view(7) && a8@ == arg_view(8) ==> #[trigger] self.requires((s, a0, a1, a2, a3, a4, a5, a6, a7, a8,))
    }

    open spec fn spec_arg_types() -> Seq<TypeView> {
        seq![A0::spec_ty(), A1::spec_ty(), A2::spec_ty(), A3::spec_ty(), A4::spec_ty(), A5::spec_ty(), A6::spec_ty(), A7::spec_ty(), A8::spec_ty()]
    }

    open spec fn runs(&self, m: &mut Scope<R>, ret: R) -> bool {
        exists|a0: Expr<A0>, a1: Expr<A1>, a2: Expr<A2>, a3: Expr<A3>, a4: Expr<A4>, a5: Expr<A5>, a6: Expr<A6>, a7: Expr<A7>, a8: Expr<A8>| a0@ == arg_view(0) && a1@ == arg_view(1) && a2@ == arg_view(2) && a3@ == arg_view(3) && a4@ == arg_view(4) && a5@ == arg_view(5) && a6@ == arg_view(6) && a7@ == arg_view(7) && a8@ == arg_view(8) && #[trigger] self.ensures((m, a0, a1, a2, a3, a4, a5, a6, a7, a8,), ret)
    }

    fn build_fn(self) -> (r: FunDef<R, (Expr<A0>, Expr<A1>, Expr<A2>, Expr<A3>, Expr<A4>, Expr<A5>, Expr<A6>, Expr<A7>, Expr<A8>)>) {
        let a0: Expr<A0> = Expr::new(ErasedExpr::MutVar(ScopedHandle::fun_arg(0)));
        let ghost g0 = a0;
        let a1: Expr<A1> = Expr::new(ErasedExpr::MutVar(ScopedHandle::fun_arg(1)));
        let ghost g1 = a1;
        let a2: Expr<A2> = Expr::new(ErasedExpr::MutVar(ScopedHandle::fun_arg(2)));
        let ghost g2 = a2;
        let a3: Expr<A3> = Expr::new(ErasedExpr::MutVar(ScopedHandle::fun_arg(3)));
        let ghost g3 = a3;
        let a4: Expr<A4> = Expr::new(ErasedExpr::MutVar(ScopedHandle::fun_arg(4)));
        let ghost g4 = a4;
        let a5: Expr<A5> = Expr::new(ErasedExpr::MutVar(ScopedHandle::fun_arg(5)));
        let ghost g5 = a5;
        let a6: Expr<A6> = Expr::new(ErasedExpr::MutVar(ScopedHandle::fun_arg(6)));
        let ghost g6 = a6;
        let a7: Expr<A7> = Expr::new(ErasedExpr::MutVar(ScopedHandle::fun_arg(7)));
        let ghost g7 = a7;
        let a8: Expr<A8> = Expr::new(ErasedExpr::MutVar(ScopedHandle::fun_arg(8)));
        let ghost g8 = a8;
        let mut args: Vec<Type> = Vec::new();
        args.push(A0::ty());
        args.push(A1::ty());
        args.push(A2::ty());
        args.push(A3::ty());
        args.push(A4::ty());
        args.push(A5::ty());
        args.push(A6::ty());
        args.push(A7::ty());
        args.push(A8::ty());
        let mut scope: Scope<R> = Scope::new(0);
        let ghost scope_init = scope;
        let ret = self(&mut scope, a0, a1, a2, a3, a4, a5, a6, a7, a8);
        let ghost ret_g = ret;
        let erased = ErasedFun::new(args, ErasedScope::body(scope.into_erased()), ret.to_return());
        proof {
            assert(erased@.args =~= seq![A0::spec_ty(), A1::spec_ty(), A2::spec_ty(), A3::spec_ty(), A4::spec_ty(), A5::spec_ty(), A6::spec_ty(), A7::spec_ty(), A8::spec_ty()]);
            assert(exists|m: &mut Scope<R>| #[trigger] self.ensures((m, g0, g1, g2, g3, g4, g5, g6, g7, g8,), ret_g) && mut_ref_current(m) == scope_init && mut_ref_future(m) == scope);
            assert forall|m: &mut Scope<R>| #[trigger] self.ensures((m, g0, g1, g2, g3, g4, g5, g6, g7, g8,), ret_g) implies self.runs(m, ret_g) by {}
            assert(exists|m: &mut Scope<R>| #[trigger] self.runs(m, ret_g) && mut_ref_current(m) == scope_init && mut_ref_future(m) == scope);
        }
        FunDef::new(erased)
    }
}

impl<F, R, A0, A1, A2, A3, A4, A5, A6, A7, A8, A9> ToFun<R, (Expr<A0>, Expr<A1>, Expr<A2>, Expr<A3>, Expr<A4>, Expr<A5>, Expr<A6>, Expr<A7>, Expr<A8>, Expr<A9>)> for F
where
    F: Fn(&mut Scope<R>, Expr<A0>, Expr<A1>, Expr<A2>, Expr<A3>, Expr<A4>, Expr<A5>, Expr<A6>, Expr<A7>, Expr<A8>, Expr<A9>) -> R,
    R: ToReturn,
    A0: ToType,
    A1: ToType,
    A2: ToType,
    A3: ToType,
    A4: ToType,
    A5: ToType,
    A6: ToType,
    A7: ToType,
    A8: ToType,
    A9: ToType,
{
    open spec fn accepts(&self) -> bool {
        forall|s: &mut Scope<R>, a0: Expr<A0>, a1: Expr<A1>, a2: Expr<A2>, a3: Expr<A3>, a4: Expr<A4>, a5: Expr<A5>, a6: Expr<A6>, a7: Expr<A7>, a8: Expr<A8>, a9: Expr<A9>|
            mut_ref_current(s)@ == ScopeView::fresh(0) && a0@ == arg_view(0) && a1@ == arg_view(1) && a2@ == arg_view(2) && a3@ == arg_view(3) && a4@ == arg_view(4) && a5@ == arg_view(5) && a6@ == arg_view(6) && a7@ == arg_view(7) && a8@ == arg_view(8) && a9@ == arg_view(9) ==> #[trigger] self.requires((s, a0, a1, a2, a3, a4, a5, a6, a7, a8, a9,))
    }

    open spec fn spec_arg_types() -> Seq<TypeView> {
        seq![A0::spec_ty(), A1::spec_ty(), A2::spec_ty(), A3::spec_ty(), A4::spec_ty(), A5::spec_ty(), A6::spec_ty(), A7::spec_ty(), A8::spec_ty(), A9::spec_ty()]
    }

    open spec fn runs(&self, m: &mut Scope<R>, ret: R) -> bool {
        exists|a0: Expr<A0>, a1: Expr<A1>, a2: Expr<A2>, a3: Expr<A3>, a4: Expr<A4>, a5: Expr<A5>, a6: Expr<A6>, a7: Expr<A7>, a8: Expr<A8>, a9: Expr<A9>| a0@ == arg_view(0) && a1@ == arg_view(1) && a2@ == arg_view(2) && a3@ == arg_view(3) && a4@ == arg_view(4) && a5@ == arg_view(5) && a6@ == arg_view(6) && a7@ == arg_view(7) && a8@ == arg_view(8) && a9@ == arg_view(9) && #[trigger] self.ensures((m, a0, a1, a2, a3, a4, a5, a6, a7, a8, a9,), ret)
    }

    fn build_fn(self) -> (r: FunDef<R, (Expr<A0>, Expr<A1>, Expr<A2>, Expr<A3>, Expr<A4>, Expr<A5>, Expr<A6>, Expr<A7>, Expr<A8>, Expr<A9>)>) {
        let a0: Expr<A0> = Expr::new(ErasedExpr::MutVar(ScopedHandle::fun_arg(0)));
        let ghost g0 = a0;
        let a1: Expr<A1> = Expr::new(ErasedExpr::MutVar(ScopedHandle::fun_arg(1)));
        let ghost g1 = a1;
        let a2: Expr<A2> = Expr::new(ErasedExpr::MutVar(ScopedHandle::fun_arg(2)));
        let ghost g2 = a2;
        let a3: Expr<A3> = Expr::new(ErasedExpr::MutVar(ScopedHandle::fun_arg(3)));
        let ghost g3 = a3;
        let a4: Expr<A4> = Expr::new(ErasedExpr::MutVar(ScopedHandle::fun_arg(4)));
        let ghost g4 = a4;
        let a5: Expr<A5> = Expr::new(ErasedExpr::MutVar(ScopedHandle::fun_arg(5)));
        let ghost g5 = a5;
        let a6: Expr<A6> = Expr::new(ErasedExpr::MutVar(ScopedHandle::fun_arg(6)));
        let ghost g6 = a6;
        let a7: Expr<A7> = Expr::new(ErasedExpr::MutVar(ScopedHandle::fun_arg(7)));
        let ghost g7 = a7;
        let a8: Expr<A8> = Expr::new(ErasedExpr::MutVar(ScopedHandle::fun_arg(8)));
        let ghost g8 = a8;
        let a9: Expr<A9> = Expr::new(ErasedExpr::MutVar(ScopedHandle::fun_arg(9)));
        let ghost g9 = a9;
        let mut args: Vec<Type> = Vec::new();
        args.push(A0::ty());
        args.push(A1::ty());
        args.push(A2::ty());
        args.push(A3::ty());
        args.push(A4::ty());
        args.push(A5::ty());
        args.push(A6::ty());
        args.push(A7::ty());
        args.push(A8::ty());
        args.push(A9::ty());
        let mut scope: Scope<R> = Scope::new(0);
        let ghost scope_init = scope;
        let ret = self(&mut scope, a0, a1, a2, a3, a4, a5, a6, a7, a8, a9);
        let ghost ret_g = ret;
        let erased = ErasedFun::new(args, ErasedScope::body(scope.into_erased()), ret.to_return());
        proof {
            assert(erased@.args =~= seq![A0::spec_ty(), A1::spec_ty(), A2::spec_ty(), A3::spec_ty(), A4::spec_ty(), A5::spec_ty(), A6::spec_ty(), A7::spec_ty(), A8::spec_ty(), A9::spec_ty()]);
            assert(exists|m: &mut Scope<R>| #[trigger] self.ensures((m, g0, g1, g2, g3, g4, g5, g6, g7, g8, g9,), ret_g) && mut_ref_current(m) == scope_init && mut_ref_future(m) == scope);
            assert forall|m: &mut Scope<R>| #[trigger] self.ensures((m, g0, g1, g2, g3, g4, g5, g6, g7, g8, g9,), ret_g) implies self.runs(m, ret_g) by {}
            assert(exists|m: &mut Scope<R>| #[trigger] self.runs(m, ret_g) && mut_ref_current(m) == scope_init && mut_ref_future(m) == scope);
        }
        FunDef::new(erased)
    }
}

impl<F, R, A0, A1, A2, A3, A4, A5, A6, A7, A8, A9, A10> ToFun<R, (Expr<A0>, Expr<A1>, Expr<A2>, Expr<A3>, Expr<A4>, Expr<A5>, Expr<A6>, Expr<A7>, Expr<A8>, Expr<A9>, Expr<A10>)> for F
where
    F: Fn(&mut Scope<R>, Expr<A0>, Expr<A1>, Expr<A2>, Expr<A3>, Expr<A4>, Expr<A5>, Expr<A6>, Expr<A7>, Expr<A8>, Expr<A9>, Expr<A10>) -> R,
    R: ToReturn,
    A0: ToType,
    A1: ToType,
    A2: ToType,
    A3: ToType,
    A4: ToType,
    A5: ToType,
    A6: ToType,
    A7: ToType,
    A8: ToType,
    A9: ToType,
    A10: ToType,
{
    open spec fn accepts(&self) -> bool {
        forall|s: &mut Scope<R>, a0: Expr<A0>, a1: Expr<A1>, a2: Expr<A2>, a3: Expr<A3>, a4: Expr<A4>, a5: Expr<A5>, a6: Expr<A6>, a7: Expr<A7>, a8: Expr<A8>, a9: Expr<A9>, a10: Expr<A10>|
            mut_ref_current(s)@ == ScopeView::fresh(0) && a0@ == arg_view(0) && a1@ == arg_view(1) && a2@ == arg_view(2) && a3@ == arg_view(3) && a4@ == arg_view(4) && a5@ == arg_view(5) && a6@ == arg_view(6) && a7@ == arg_view(7) && a8@ == arg_view(8) && a9@ == arg_view(9) && a10@ == arg_view(10) ==> #[trigger] self.requires((s, a0, a1, a2, a3, a4, a5, a6, a7, a8, a9, a10,))
    }

    open spec fn spec_arg_types() -> Seq<TypeView> {
        seq![A0::spec_ty(), A1::spec_ty(), A2::spec_ty(), A3::spec_ty(), A4::spec_ty(), A5::spec_ty(), A6::spec_ty(), A7::spec_ty(), A8::spec_ty(), A9::spec_ty(), A10::spec_ty()]
    }

    open spec fn runs(&self, m: &mut Scope<R>, ret: R) -> bool {
        exists|a0: Expr<A0>, a1: Expr<A1>, a2: Expr<A2>, a3: Expr<A3>, a4: Expr<A4>, a5: Expr<A5>, a6: Expr<A6>, a7: Expr<A7>, a8: Expr<A8>, a9: Expr<A9>, a10: Expr<A10>| a0@ == arg_view(0) && a1@ == arg_view(1) && a2@ == arg_view(2) && a3@ == arg_view(3) && a4@ == arg_view(4) && a5@ == arg_view(5) && a6@ == arg_view(6) && a7@ == arg_view(7) && a8@ == arg_view(8) && a9@ == arg_view(9) && a10@ == arg_view(10) && #[trigger] self.ensures((m, a0, a1, a2, a3, a4, a5, a6, a7, a8, a9, a10,), ret)
    }

    fn build_fn(self) -> (r: FunDef<R, (Expr<A0>, Expr<A1>, Expr<A2>, Expr<A3>, Expr<A4>, Expr<A5>, Expr<A6>, Expr<A7>, Expr<A8>, Expr<A9>, Expr<A10>)>) {
        let a0: Expr<A0> = Expr::new(ErasedExpr::MutVar(ScopedHandle::fun_arg(0)));
        let ghost g0 = a0;
        let a1: Expr<A1> = Expr::new(ErasedExpr::MutVar(ScopedHandle::fun_arg(1)));
        let ghost g1 = a1;
        let a2: Expr<A2> = Expr::new(ErasedExpr::MutVar(ScopedHandle::fun_arg(2)));
        let ghost g2 = a2;
        let a3: Expr<A3> = Expr::new(ErasedExpr::MutVar(ScopedHandle::fun_arg(3)));
        let ghost g3 = a3;
        let a4: Expr<A4> = Expr::new(ErasedExpr::MutVar(ScopedHandle::fun_arg(4)));
        let ghost g4 = a4;
        let a5: Expr<A5> = Expr::new(ErasedExpr::MutVar(ScopedHandle::fun_arg(5)));
        let ghost g5 = a5;
        let a6: Expr<A6> = Expr::new(ErasedExpr::MutVar(ScopedHandle::fun_arg(6)));
        let ghost g6 = a6;
        let a7: Expr<A7> = Expr::new(ErasedExpr::MutVar(ScopedHandle::fun_arg(7)));
        let ghost g7 = a7;
        let a8: Expr<A8> = Expr::new(ErasedExpr::MutVar(ScopedHandle::fun_arg(8)));
        let ghost g8 = a8;
        let a9: Expr<A9> = Expr::new(ErasedExpr::MutVar(ScopedHandle::fun_arg(9)));
        let ghost g9 = a9;
        let a10: Expr<A10> = Expr::new(ErasedExpr::MutVar(ScopedHandle::fun_arg(10)));
        let ghost g10 = a10;
        let mut args: Vec<Type> = Vec::new();
        args.push(A0::ty());
        args.push(A1::ty());
        args.push(A2::ty());
        args.push(A3::ty());
        args.push(A4::ty());
        args.push(A5::ty());
        args.push(A6::ty());
        args.push(A7::ty());
        args.push(A8::ty());
        args.push(A9::ty());
        args.push(A10::ty());
        let mut scope: Scope<R> = Scope::new(0);
        let ghost scope_init = scope;
        let ret = self(&mut scope, a0, a1, a2, a3, a4, a5, a6, a7, a8, a9, a10);
        let ghost ret_g = ret;
        let erased = ErasedFun::new(args, ErasedScope::body(scope.into_erased()), ret.to_return());
        proof {
            assert(erased@.args =~= seq![A0::spec_ty(), A1::spec_ty(), A2::spec_ty(), A3::spec_ty(), A4::spec_ty(), A5::spec_ty(), A6::spec_ty(), A7::spec_ty(), A8::spec_ty(), A9::spec_ty(), A10::spec_ty()]);
            assert(exists|m: &mut Scope<R>| #[trigger] self.ensures((m, g0, g1, g2, g3, g4, g5, g6, g7, g8, g9, g10,), ret_g) && mut_ref_current(m) == scope_init && mut_ref_future(m) == scope);
            assert forall|m: &mut Scope<R>| #[trigger] self.ensures((m, g0, g1, g2, g3, g4, g5, g6, g7, g8, g9, g10,), ret_g) implies self.runs(m, ret_g) by {}
            assert(exists|m: &mut Scope<R>| #[trigger] self.runs(m, ret_g) && mut_ref_current(m) == scope_init && mut_ref_future(m) == scope);
        }
        FunDef::new(erased)
    }
}

impl<F, R, A0, A1, A2, A3, A4, A5, A6, A7, A8, A9, A10, A11> ToFun<R, (Expr<A0>, Expr<A1>, Expr<A2>, Expr<A3>, Expr<A4>, Expr<A5>, Expr<A6>, Expr<A7>, Expr<A8>, Expr<A9>, Expr<A10>, Expr<A11>)> for F
where
    F: Fn(&mut Scope<R>, Expr<A0>, Expr<A1>, Expr<A2>, Expr<A3>, Expr<A4>, Expr<A5>, Expr<A6>, Expr<A7>, Expr<A8>, Expr<A9>, Expr<A10>, Expr<A11>) -> R,
    R: ToReturn,
    A0: ToType,
    A1: ToType,
    A2: ToType,
    A3: ToType,
    A4: ToType,
    A5: ToType,
    A6: ToType,
    A7: ToType,
    A8: ToType,
    A9: ToType,
    A10: ToType,
    A11: ToType,
{
    open spec fn accepts(&self) -> bool {
        forall|s: &mut Scope<R>, a0: Expr<A0>, a1: Expr<A1>, a2: Expr<A2>, a3: Expr<A3>, a4: Expr<A4>, a5: Expr<A5>, a6: Expr<A6>, a7: Expr<A7>, a8: Expr<A8>, a9: Expr<A9>, a10: Expr<A10>, a11: Expr<A11>|
            mut_ref_current(s)@ == ScopeView::fresh(0) && a0@ == arg_view(0) && a1@ == arg_view(1) && a2@ == arg_view(2) && a3@ == arg_view(3) && a4@ == arg_view(4) && a5@ == arg_view(5) && a6@ == arg_view(6) && a7@ == arg_view(7) && a8@ == arg_view(8) && a9@ == arg_view(9) && a10@ == arg_view(10) && a11@ == arg_view(11) ==> #[trigger] self.requires((s, a0, a1, a2, a3, a4, a5, a6, a7, a8, a9, a10, a11,))
    }

    open spec fn spec_arg_types() -> Seq<TypeView> {
        seq![A0::spec_ty(), A1::spec_ty(), A2::spec_ty(), A3::spec_ty(), A4::spec_ty(), A5::spec_ty(), A6::spec_ty(), A7::spec_ty(), A8::spec_ty(), A9::spec_ty(), A10::spec_ty(), A11::spec_ty()]
    }

    open spec fn runs(&self, m: &mut Scope<R>, ret: R) -> bool {
        exists|a0: Expr<A0>, a1: Expr<A1>, a2: Expr<A2>, a3: Expr<A3>, a4: Expr<A4>, a5: Expr<A5>, a6: Expr<A6>, a7: Expr<A7>, a8: Expr<A8>, a9: Expr<A9>, a10: Expr<A10>, a11: Expr<A11>| a0@ == arg_view(0) && a1@ == arg_view(1) && a2@ == arg_view(2) && a3@ == arg_view(3) && a4@ == arg_view(4) && a5@ == arg_view(5) && a6@ == arg_view(6) && a7@ == arg_view(7) && a8@ == arg_view(8) && a9@ == arg_view(9) && a10@ == arg_view(10) && a11@ == arg_view(11) && #[trigger] self.ensures((m, a0, a1, a2, a3, a4, a5, a6, a7, a8, a9, a10, a11,), ret)
    }

    fn build_fn(self) -> (r: FunDef<R, (Expr<A0>, Expr<A1>, Expr<A2>, Expr<A3>, Expr<A4>, Expr<A5>, Expr<A6>, Expr<A7>, Expr<A8>, Expr<A9>, Expr<A10>, Expr<A11>)>) {
        let a0: Expr<A0> = Expr::new(ErasedExpr::MutVar(ScopedHandle::fun_arg(0)));
        let ghost g0 = a0;
        let a1: Expr<A1> = Expr::new(ErasedExpr::MutVar(ScopedHandle::fun_arg(1)));
        let ghost g1 = a1;
        let a2: Expr<A2> = Expr::new(ErasedExpr::MutVar(ScopedHandle::fun_arg(2)));
        let ghost g2 = a2;
        let a3: Expr<A3> = Expr::new(ErasedExpr::MutVar(ScopedHandle::fun_arg(3)));
        let ghost g3 = a3;
        let a4: Expr<A4> = Expr::new(ErasedExpr::MutVar(ScopedHandle::fun_arg(4)));
        let ghost g4 = a4;
        let a5: Expr<A5> = Expr::new(ErasedExpr::MutVar(ScopedHandle::fun_arg(5)));
        let ghost g5 = a5;
        let a6: Expr<A6> = Expr::new(ErasedExpr::MutVar(ScopedHandle::fun_arg(6)));
        let ghost g6 = a6;
        let a7: Expr<A7> = Expr::new(ErasedExpr::MutVar(ScopedHandle::fun_arg(7)));
        let ghost g7 = a7;
        let a8: Expr<A8> = Expr::new(ErasedExpr::MutVar(ScopedHandle::fun_arg(8)));
        let ghost g8 = a8;
        let a9: Expr<A9> = Expr::new(ErasedExpr::MutVar(ScopedHandle::fun_arg(9)));
        let ghost g9 = a9;
        let a10: Expr<A10> = Expr::new(ErasedExpr::MutVar(ScopedHandle::fun_arg(10)));
        let ghost g10 = a10;
        let a11: Expr<A11> = Expr::new(ErasedExpr::MutVar(ScopedHandle::fun_arg(11)));
        let ghost g11 = a11;
        let mut args: Vec<Type> = Vec::new();
        args.push(A0::ty());
        args.push(A1::ty());
        args.push(A2::ty());
        args.push(A3::ty());
        args.push(A4::ty());
        args.push(A5::ty());
        args.push(A6::ty());
        args.push(A7::ty());
        args.push(A8::ty());
        args.push(A9::ty());
        args.push(A10::ty());
        args.push(A11::ty());
        let mut scope: Scope<R> = Scope::new(0);
        let ghost scope_init = scope;
        let ret = self(&mut scope, a0, a1, a2, a3, a4, a5, a6, a7, a8, a9, a10, a11);
        let ghost ret_g = ret;
        let erased = ErasedFun::new(args, ErasedScope::body(scope.into_erased()), ret.to_return());
        proof {
            assert(erased@.args =~= seq![A0::spec_ty(), A1::spec_ty(), A2::spec_ty(), A3::spec_ty(), A4::spec_ty(), A5::spec_ty(), A6::spec_ty(), A7::spec_ty(), A8::spec_ty(), A9::spec_ty(), A10::spec_ty(), A11::spec_ty()]);
            assert(exists|m: &mut Scope<R>| #[trigger] self.ensures((m, g0, g1, g2, g3, g4, g5, g6, g7, g8, g9, g10, g11,), ret_g) && mut_ref_current(m) == scope_init && mut_ref_future(m) == scope);
            assert forall|m: &mut Scope<R>| #[trigger] self.ensures((m, g0, g1, g2, g3, g4, g5, g6, g7, g8, g9, g10, g11,), ret_g) implies self.runs(m, ret_g) by {}
            assert(exists|m: &mut Scope<R>| #[trigger] self.runs(m, ret_g) && mut_ref_current(m) == scope_init && mut_ref_future(m) == scope);
        }
        FunDef::new(erased)
    }
}

impl<F, R, A0, A1, A2, A3, A4, A5, A6, A7, A8, A9, A10, A11, A12> ToFun<R, (Expr<A0>, Expr<A1>, Expr<A2>, Expr<A3>, Expr<A4>, Expr<A5>, Expr<A6>, Expr<A7>, Expr<A8>, Expr<A9>, Expr<A10>, Expr<A11>, Expr<A12>)> for F
where
    F: Fn(&mut Scope<R>, Expr<A0>, Expr<A1>, Expr<A2>, Expr<A3>, Expr<A4>, Expr<A5>, Expr<A6>, Expr<A7>, Expr<A8>, Expr<A9>, Expr<A10>, Expr<A11>, Expr<A12>) -> R,
    R: ToReturn,
    A0: ToType,
    A1: ToType,
    A2: ToType,
    A3: ToType,
    A4: ToType,
    A5: ToType,
    A6: ToType,
    A7: ToType,
    A8: ToType,
    A9: ToType,
    A10: ToType,
    A11: ToType,
    A12: ToType,
{
    open spec fn accepts(&self) -> bool {
        forall|s: &mut Scope<R>, a0: Expr<A0>, a1: Expr<A1>, a2: Expr<A2>, a3: Expr<A3>, a4: Expr<A4>, a5: Expr<A5>, a6: Expr<A6>, a7: Expr<A7>, a8: Expr<A8>, a9: Expr<A9>, a10: Expr<A10>, a11: Expr<A11>, a12: Expr<A12>|
            mut_ref_current(s)@ == ScopeView::fresh(0) && a0@ == arg_view(0) && a1@ == arg_view(1) && a2@ == arg_view(2) && a3@ == arg_view(3) && a4@ == arg_view(4) && a5@ == arg_view(5) && a6@ == arg_view(6) && a7@ == arg_view(7) && a8@ == arg_view(8) && a9@ == arg_view(9) && a10@ == arg_view(10) && a11@ == arg_view(11) && a12@ == arg_view(12) ==> #[trigger] self.requires((s, a0, a1, a2, a3, a4, a5, a6, a7, a8, a9, a10, a11, a12,))
    }

    open spec fn spec_arg_types() -> Seq<TypeView> {
        seq![A0::spec_ty(), A1::spec_ty(), A2::spec_ty(), A3::spec_ty(), A4::spec_ty(), A5::spec_ty(), A6::spec_ty(), A7::spec_ty(), A8::spec_ty(), A9::spec_ty(), A10::spec_ty(), A11::spec_ty(), A12::spec_ty()]
    }

    open spec fn runs(&self, m: &mut Scope<R>, ret: R) -> bool {
        exists|a0: Expr<A0>, a1: Expr<A1>, a2: Expr<A2>, a3: Expr<A3>, a4: Expr<A4>, a5: Expr<A5>, a6: Expr<A6>, a7: Expr<A7>, a8: Expr<A8>, a9: Expr<A9>, a10: Expr<A10>, a11: Expr<A11>, a12: Expr<A12>| a0@ == arg_view(0) && a1@ == arg_view(1) && a2@ == arg_view(2) && a3@ == arg_view(3) && a4@ == arg_view(4) && a5@ == arg_view(5) && a6@ == arg_view(6) && a7@ == arg_view(7) && a8@ == arg_view(8) && a9@ == arg_view(9) && a10@ == arg_view(10) && a11@ == arg_view(11) && a12@ == arg_view(12) && #[trigger] self.ensures((m, a0, a1, a2, a3, a4, a5, a6, a7, a8, a9, a10, a11, a12,), ret)
    }

    fn build_fn(self) -> (r: FunDef<R, (Expr<A0>, Expr<A1>, Expr<A2>, Expr<A3>, Expr<A4>, Expr<A5>, Expr<A6>, Expr<A7>, Expr<A8>, Expr<A9>, Expr<A10>, Expr<A11>, Expr<A12>)>) {
        let a0: Expr<A0> = Expr::new(ErasedExpr::MutVar(ScopedHandle::fun_arg(0)));
        let ghost g0 = a0;
        let a1: Expr<A1> = Expr::new(ErasedExpr::MutVar(ScopedHandle::fun_arg(1)));
        let ghost g1 = a1;
        let a2: Expr<A2> = Expr::new(ErasedExpr::MutVar(ScopedHandle::fun_arg(2)));
        let ghost g2 = a2;
        let a3: Expr<A3> = Expr::new(ErasedExpr::MutVar(ScopedHandle::fun_arg(3)));
        let ghost g3 = a3;
        let a4: Expr<A4> = Expr::new(ErasedExpr::MutVar(ScopedHandle::fun_arg(4)));
        let ghost g4 = a4;
        let a5: Expr<A5> = Expr::new(ErasedExpr::MutVar(ScopedHandle::fun_arg(5)));
        let ghost g5 = a5;
        let a6: Expr<A6> = Expr::new(ErasedExpr::MutVar(ScopedHandle::fun_arg(6)));
        let ghost g6 = a6;
        let a7: Expr<A7> = Expr::new(ErasedExpr::MutVar(ScopedHandle::fun_arg(7)));
        let ghost g7 = a7;
        let a8: Expr<A8> = Expr::new(ErasedExpr::MutVar(ScopedHandle::fun_arg(8)));
        let ghost g8 = a8;
        let a9: Expr<A9> = Expr::new(ErasedExpr::MutVar(ScopedHandle::fun_arg(9)));
        let ghost g9 = a9;
        let a10: Expr<A10> = Expr::new(ErasedExpr::MutVar(ScopedHandle::fun_arg(10)));
        let ghost g10 = a10;
        let a11: Expr<A11> = Expr::new(ErasedExpr::MutVar(ScopedHandle::fun_arg(11)));
        let ghost g11 = a11;
        let a12: Expr<A12> = Expr::new(ErasedExpr::MutVar(ScopedHandle::fun_arg(12)));
        let ghost g12 = a12;
        let mut args: Vec<Type> = Vec::new();
        args.push(A0::ty());
        args.push(A1::ty());
        args.push(A2::ty());
        args.push(A3::ty());
        args.push(A4::ty());
        args.push(A5::ty());
        args.push(A6::ty());
        args.push(A7::ty());
        args.push(A8::ty());
        args.push(A9::ty());
        args.push(A10::ty());
        args.push(A11::ty());
        args.push(A12::ty());
        let mut scope: Scope<R> = Scope::new(0);
        let ghost scope_init = scope;
        let ret = self(&mut scope, a0, a1, a2, a3, a4, a5, a6, a7, a8, a9, a10, a11, a12);
        let ghost ret_g = ret;
        let erased = ErasedFun::new(args, ErasedScope::body(scope.into_erased()), ret.to_return());
        proof {
            assert(erased@.args =~= seq![A0::spec_ty(), A1::spec_ty(), A2::spec_ty(), A3::spec_ty(), A4::spec_ty(), A5::spec_ty(), A6::spec_ty(), A7::spec_ty(), A8::spec_ty(), A9::spec_ty(), A10::spec_ty(), A11::spec_ty(), A12::spec_ty()]);
            assert(exists|m: &mut Scope<R>| #[trigger] self.ensures((m, g0, g1, g2, g3, g4, g5, g6, g7, g8, g9, g10, g11, g12,), ret_g) && mut_ref_current(m) == scope_init && mut_ref_future(m) == scope);
            assert forall|m: &mut Scope<R>| #[trigger] self.ensures((m, g0, g1, g2, g3, g4, g5, g6, g7, g8, g9, g10, g11, g12,), ret_g) implies self.runs(m, ret_g) by {}
            assert(exists|m: &mut Scope<R>| #[trigger] self.runs(m, ret_g) && mut_ref_current(m) == scope_init && mut_ref_future(m) == scope);
        }
        FunDef::new(erased)
    }
}

impl<F, R, A0, A1, A2, A3, A4, A5, A6, A7, A8, A9, A10, A11, A12, A13> ToFun<R, (Expr<A0>, Expr<A1>, Expr<A2>, Expr<A3>, Expr<A4>, Expr<A5>, Expr<A6>, Expr<A7>, Expr<A8>, Expr<A9>, Expr<A10>, Expr<A11>, Expr<A12>, Expr<A13>)> for F
where
    F: Fn(&mut Scope<R>, Expr<A0>, Expr<A1>, Expr<A2>, Expr<A3>, Expr<A4>, Expr<A5>, Expr<A6>, Expr<A7>, Expr<A8>, Expr<A9>, Expr<A10>, Expr<A11>, Expr<A12>, Expr<A13>) -> R,
    R: ToReturn,
    A0: ToType,
    A1: ToType,
    A2: ToType,
    A3: ToType,
    A4: ToType,
    A5: ToType,
    A6: ToType,
    A7: ToType,
    A8: ToType,
    A9: ToType,
    A10: ToType,
    A11: ToType,
    A12: ToType,
    A13: ToType,
{
    open spec fn accepts(&self) -> bool {
        forall|s: &mut Scope<R>, a0: Expr<A0>, a1: Expr<A1>, a2: Expr<A2>, a3: Expr<A3>, a4: Expr<A4>, a5: Expr<A5>, a6: Expr<A6>, a7: Expr<A7>, a8: Expr<A8>, a9: Expr<A9>, a10: Expr<A10>, a11: Expr<A11>, a12: Expr<A12>, a13: Expr<A13>|
            mut_ref_current(s)@ == ScopeView::fresh(0) && a0@ == arg_view(0) && a1@ == arg_view(1) && a2@ == arg_view(2) && a3@ == arg_view(3) && a4@ == arg_view(4) && a5@ == arg_view(5) && a6@ == arg_view(6) && a7@ == arg_view(7) && a8@ == arg_view(8) && a9@ == arg_view(9) && a10@ == arg_view(10) && a11@ == arg_view(11) && a12@ == arg_view(12) && a13@ == arg_view(13) ==> #[trigger] self.requires((s, a0, a1, a2, a3, a4, a5, a6, a7, a8, a9, a10, a11, a12, a13,))
    }

    open spec fn spec_arg_types() -> Seq<TypeView> {
        seq![A0::spec_ty(), A1::spec_ty(), A2::spec_ty(), A3::spec_ty(), A4::spec_ty(), A5::spec_ty(), A6::spec_ty(), A7::spec_ty(), A8::spec_ty(), A9::spec_ty(), A10::spec_ty(), A11::spec_ty(), A12::spec_ty(), A13::spec_ty()]
    }

    open spec fn runs(&self, m: &mut Scope<R>, ret: R) -> bool {
        exists|a0: Expr<A0>, a1: Expr<A1>, a2: Expr<A2>, a3: Expr<A3>, a4: Expr<A4>, a5: Expr<A5>, a6: Expr<A6>, a7: Expr<A7>, a8: Expr<A8>, a9: Expr<A9>, a10: Expr<A10>, a11: Expr<A11>, a12: Expr<A12>, a13: Expr<A13>| a0@ == arg_view(0) && a1@ == arg_view(1) && a2@ == arg_view(2) && a3@ == arg_view(3) && a4@ == arg_view(4) && a5@ == arg_view(5) && a6@ == arg_view(6) && a7@ == arg_view(7) && a8@ == arg_view(8) && a9@ == arg_view(9) && a10@ == arg_view(10) && a11@ == arg_view(11) && a12@ == arg_view(12) && a13@ == arg_view(13) && #[trigger] self.ensures((m, a0, a1, a2, a3, a4, a5, a6, a7, a8, a9, a10, a11, a12, a13,), ret)
    }

    fn build_fn(self) -> (r: FunDef<R, (Expr<A0>, Expr<A1>, Expr<A2>, Expr<A3>, Expr<A4>, Expr<A5>, Expr<A6>, Expr<A7>, Expr<A8>, Expr<A9>, Expr<A10>, Expr<A11>, Expr<A12>, Expr<A13>)>) {
        let a0: Expr<A0> = Expr::new(ErasedExpr::MutVar(ScopedHandle::fun_arg(0)));
        let ghost g0 = a0;
        let a1: Expr<A1> = Expr::new(ErasedExpr::MutVar(ScopedHandle::fun_arg(1)));
        let ghost g1 = a1;
        let a2: Expr<A2> = Expr::new(ErasedExpr::MutVar(ScopedHandle::fun_arg(2)));
        let ghost g2 = a2;
        let a3: Expr<A3> = Expr::new(ErasedExpr::MutVar(ScopedHandle::fun_arg(3)));
        let ghost g3 = a3;
        let a4: Expr<A4> = Expr::new(ErasedExpr::MutVar(ScopedHandle::fun_arg(4)));
        let ghost g4 = a4;
        let a5: Expr<A5> = Expr::new(ErasedExpr::MutVar(ScopedHandle::fun_arg(5)));
        let ghost g5 = a5;
        let a6: Expr<A6> = Expr::new(ErasedExpr::MutVar(ScopedHandle::fun_arg(6)));
        let ghost g6 = a6;
        let a7: Expr<A7> = Expr::new(ErasedExpr::MutVar(ScopedHandle::fun_arg(7)));
        let ghost g7 = a7;
        let a8: Expr<A8> = Expr::new(ErasedExpr::MutVar(ScopedHandle::fun_arg(8)));
        let ghost g8 = a8;
        let a9: Expr<A9> = Expr::new(ErasedExpr::MutVar(ScopedHandle::fun_arg(9)));
        let ghost g9 = a9;
        let a10: Expr<A10> = Expr::new(ErasedExpr::MutVar(ScopedHandle::fun_arg(10)));
        let ghost g10 = a10;
        let a11: Expr<A11> = Expr::new(ErasedExpr::MutVar(ScopedHandle::fun_arg(11)));
        let ghost g11 = a11;
        let a12: Expr<A12> = Expr::new(ErasedExpr::MutVar(ScopedHandle::fun_arg(12)));
        let ghost g12 = a12;
        let a13: Expr<A13> = Expr::new(ErasedExpr::MutVar(ScopedHandle::fun_arg(13)));
        let ghost g13 = a13;
        let mut args: Vec<Type> = Vec::new();
        args.push(A0::ty());
        args.push(A1::ty());
        args.push(A2::ty());
        args.push(A3::ty());
        args.push(A4::ty());
        args.push(A5::ty());
        args.push(A6::ty());
        args.push(A7::ty());
        args.push(A8::ty());
        args.push(A9::ty());
        args.push(A10::ty());
        args.push(A11::ty());
        args.push(A12::ty());
        args.push(A13::ty());
        let mut scope: Scope<R> = Scope::new(0);
        let ghost scope_init = scope;
        let ret = self(&mut scope, a0, a1, a2, a3, a4, a5, a6, a7, a8, a9, a10, a11, a12, a13);
        let ghost ret_g = ret;
        let erased = ErasedFun::new(args, ErasedScope::body(scope.into_erased()), ret.to_return());
        proof {
            assert(erased@.args =~= seq![A0::spec_ty(), A1::spec_ty(), A2::spec_ty(), A3::spec_ty(), A4::spec_ty(), A5::spec_ty(), A6::spec_ty(), A7::spec_ty(), A8::spec_ty(), A9::spec_ty(), A10::spec_ty(), A11::spec_ty(), A12::spec_ty(), A13::spec_ty()]);
            assert(exists|m: &mut Scope<R>| #[trigger] self.ensures((m, g0, g1, g2, g3, g4, g5, g6, g7, g8, g9, g10, g11, g12, g13,), ret_g) && mut_ref_current(m) == scope_init && mut_ref_future(m) == scope);
            assert forall|m: &mut Scope<R>| #[trigger] self.ensures((m, g0, g1, g2, g3, g4, g5, g6, g7, g8, g9, g10, g11, g12, g13,), ret_g) implies self.runs(m, ret_g) by {}
            assert(exists|m: &mut Scope<R>| #[trigger] self.runs(m, ret_g) && mut_ref_current(m) == scope_init && mut_ref_future(m) == scope);
        }
        FunDef::new(erased)
    }
}

impl<F, R, A0, A1, A2, A3, A4, A5, A6, A7, A8, A9, A10, A11, A12, A13, A14> ToFun<R, (Expr<A0>, Expr<A1>, Expr<A2>, Expr<A3>, Expr<A4>, Expr<A5>, Expr<A6>, Expr<A7>, Expr<A8>, Expr<A9>, Expr<A10>, Expr<A11>, Expr<A12>, Expr<A13>, Expr<A14>)> for F
where
    F: Fn(&mut Scope<R>, Expr<A0>, Expr<A1>, Expr<A2>, Expr<A3>, Expr<A4>, Expr<A5>, Expr<A6>, Expr<A7>, Expr<A8>, Expr<A9>, Expr<A10>, Expr<A11>, Expr<A12>, Expr<A13>, Expr<A14>) -> R,
    R: ToReturn,
    A0: ToType,
    A1: ToType,
    A2: ToType,
    A3: ToType,
    A4: ToType,
    A5: ToType,
    A6: ToType,
    A7: ToType,
    A8: ToType,
    A9: ToType,
    A10: ToType,
    A11: ToType,
    A12: ToType,
    A13: ToType,
    A14: ToType,
{
    open spec fn accepts(&self) -> bool {
        forall|s: &mut Scope<R>, a0: Expr<A0>, a1: Expr<A1>, a2: Expr<A2>, a3: Expr<A3>, a4: Expr<A4>, a5: Expr<A5>, a6: Expr<A6>, a7: Expr<A7>, a8: Expr<A8>, a9: Expr<A9>, a10: Expr<A10>, a11: Expr<A11>, a12: Expr<A12>, a13: Expr<A13>, a14: Expr<A14>|
            mut_ref_current(s)@ == ScopeView::fresh(0) && a0@ == arg_view(0) && a1@ == arg_view(1) && a2@ == arg_view(2) && a3@ == arg_view(3) && a4@ == arg_view(4) && a5@ == arg_view(5) && a6@ == arg_view(6) && a7@ == arg_view(7) && a8@ == arg_view(8) && a9@ == arg_view(9) && a10@ == arg_view(10) && a11@ == arg_view(11) && a12@ == arg_view(12) && a13@ == arg_view(13) && a14@ == arg_view(14) ==> #[trigger] self.requires((s, a0, a1, a2, a3, a4, a5, a6, a7, a8, a9, a10, a11, a12, a13, a14,))
    }

    open spec fn spec_arg_types() -> Seq<TypeView> {
        seq![A0::spec_ty(), A1::spec_ty(), A2::spec_ty(), A3::spec_ty(), A4::spec_ty(), A5::spec_ty(), A6::spec_ty(), A7::spec_ty(), A8::spec_ty(), A9::spec_ty(), A10::spec_ty(), A11::spec_ty(), A12::spec_ty(), A13::spec_ty(), A14::spec_ty()]
    }

    open spec fn runs(&self, m: &mut Scope<R>, ret: R) -> bool {
        exists|a0: Expr<A0>, a1: Expr<A1>, a2: Expr<A2>, a3: Expr<A3>, a4: Expr<A4>, a5: Expr<A5>, a6: Expr<A6>, a7: Expr<A7>, a8: Expr<A8>, a9: Expr<A9>, a10: Expr<A10>, a11: Expr<A11>, a12: Expr<A12>, a13: Expr<A13>, a14: Expr<A14>| a0@ == arg_view(0) && a1@ == arg_view(1) && a2@ == arg_view(2) && a3@ == arg_view(3) && a4@ == arg_view(4) && a5@ == arg_view(5) && a6@ == arg_view(6) && a7@ == arg_view(7) && a8@ == arg_view(8) && a9@ == arg_view(9) && a10@ == arg_view(10) && a11@ == arg_view(11) && a12@ == arg_view(12) && a13@ == arg_view(13) && a14@ == arg_view(14) && #[trigger] self.ensures((m, a0, a1, a2, a3, a4, a5, a6, a7, a8, a9, a10, a11, a12, a13, a14,), ret)
    }

    fn build_fn(self) -> (r: FunDef<R, (Expr<A0>, Expr<A1>, Expr<A2>, Expr<A3>, Expr<A4>, Expr<A5>, Expr<A6>, Expr<A7>, Expr<A8>, Expr<A9>, Expr<A10>, Expr<A11>, Expr<A12>, Expr<A13>, Expr<A14>)>) {
        let a0: Expr<A0> = Expr::new(ErasedExpr::MutVar(ScopedHandle::fun_arg(0)));
        let ghost g0 = a0;
        let a1: Expr<A1> = Expr::new(ErasedExpr::MutVar(ScopedHandle::fun_arg(1)));
        let ghost g1 = a1;
        let a2: Expr<A2> = Expr::new(ErasedExpr::MutVar(ScopedHandle::fun_arg(2)));
        let ghost g2 = a2;
        let a3: Expr<A3> = Expr::new(ErasedExpr::MutVar(ScopedHandle::fun_arg(3)));
        let ghost g3 = a3;
        let a4: Expr<A4> = Expr::new(ErasedExpr::MutVar(ScopedHandle::fun_arg(4)));
        let ghost g4 = a4;
        let a5: Expr<A5> = Expr::new(ErasedExpr::MutVar(ScopedHandle::fun_arg(5)));
        let ghost g5 = a5;
        let a6: Expr<A6> = Expr::new(ErasedExpr::MutVar(ScopedHandle::fun_arg(6)));
        let ghost g6 = a6;
        let a7: Expr<A7> = Expr::new(ErasedExpr::MutVar(ScopedHandle::fun_arg(7)));
        let ghost g7 = a7;
        let a8: Expr<A8> = Expr::new(ErasedExpr::MutVar(ScopedHandle::fun_arg(8)));
        let ghost g8 = a8;
        let a9: Expr<A9> = Expr::new(ErasedExpr::MutVar(ScopedHandle::fun_arg(9)));
        let ghost g9 = a9;
        let a10: Expr<A10> = Expr::new(ErasedExpr::MutVar(ScopedHandle::fun_arg(10)));
        let ghost g10 = a10;
        let a11: Expr<A11> = Expr::new(ErasedExpr::MutVar(ScopedHandle::fun_arg(11)));
        let ghost g11 = a11;
        let a12: Expr<A12> = Expr::new(ErasedExpr::MutVar(ScopedHandle::fun_arg(12)));
        let ghost g12 = a12;
        let a13: Expr<A13> = Expr::new(ErasedExpr::MutVar(ScopedHandle::fun_arg(13)));
        let ghost g13 = a13;
        let a14: Expr<A14> = Expr::new(ErasedExpr::MutVar(ScopedHandle::fun_arg(14)));
        let ghost g14 = a14;
        let mut args: Vec<Type> = Vec::new();
        args.push(A0::ty());
        args.push(A1::ty());
        args.push(A2::ty());
        args.push(A3::ty());
        args.push(A4::ty());
        args.push(A5::ty());
        args.push(A6::ty());
        args.push(A7::ty());
        args.push(A8::ty());
        args.push(A9::ty());
        args.push(A10::ty());
        args.push(A11::ty());
        args.push(A12::ty());
        args.push(A13::ty());
        args.push(A14::ty());
        let mut scope: Scope<R> = Scope::new(0);
        let ghost scope_init = scope;
        let ret = self(&mut scope, a0, a1, a2, a3, a4, a5, a6, a7, a8, a9, a10, a11, a12, a13, a14);
        let ghost ret_g = ret;
        let erased = ErasedFun::new(args, ErasedScope::body(scope.into_erased()), ret.to_return());
        proof {
            assert(erased@.args =~= seq![A0::spec_ty(), A1::spec_ty(), A2::spec_ty(), A3::spec_ty(), A4::spec_ty(), A5::spec_ty(), A6::spec_ty(), A7::spec_ty(), A8::spec_ty(), A9::spec_ty(), A10::spec_ty(), A11::spec_ty(), A12::spec_ty(), A13::spec_ty(), A14::spec_ty()]);
            assert(exists|m: &mut Scope<R>| #[trigger] self.ensures((m, g0, g1, g2, g3, g4, g5, g6, g7, g8, g9, g10, g11, g12, g13, g14,), ret_g) && mut_ref_current(m) == scope_init && mut_ref_future(m) == scope);
            assert forall|m: &mut Scope<R>| #[trigger] self.ensures((m, g0, g1, g2, g3, g4, g5, g6, g7, g8, g9, g10, g11, g12, g13, g14,), ret_g) implies self.runs(m, ret_g) by {}
            assert(exists|m: &mut Scope<R>| #[trigger] self.runs(m, ret_g) && mut_ref_current(m) == scope_init && mut_ref_future(m) == scope);
        }
        FunDef::new(erased)
    }
}

impl<F, R, A0, A1, A2, A3, A4, A5, A6, A7, A8, A9, A10, A11, A12, A13, A14, A15> ToFun<R, (Expr<A0>, Expr<A1>, Expr<A2>, Expr<A3>, Expr<A4>, Expr<A5>, Expr<A6>, Expr<A7>, Expr<A8>, Expr<A9>, Expr<A10>, Expr<A11>, Expr<A12>, Expr<A13>, Expr<A14>, Expr<A15>)> for F
where
    F: Fn(&mut Scope<R>, Expr<A0>, Expr<A1>, Expr<A2>, Expr<A3>, Expr<A4>, Expr<A5>, Expr<A6>, Expr<A7>, Expr<A8>, Expr<A9>, Expr<A10>, Expr<A11>, Expr<A12>, Expr<A13>, Expr<A14>, Expr<A15>) -> R,
    R: ToReturn,
    A0: ToType,
    A1: ToType,
    A2: ToType,
    A3: ToType,
    A4: ToType,
    A5: ToType,
    A6: ToType,
    A7: ToType,
    A8: ToType,
    A9: ToType,
    A10: ToType,
    A11: ToType,
    A12: ToType,
    A13: ToType,
    A14: ToType,
    A15: ToType,
{
    open spec fn accepts(&self) -> bool {
        forall|s: &mut Scope<R>, a0: Expr<A0>, a1: Expr<A1>, a2: Expr<A2>, a3: Expr<A3>, a4: Expr<A4>, a5: Expr<A5>, a6: Expr<A6>, a7: Expr<A7>, a8: Expr<A8>, a9: Expr<A9>, a10: Expr<A10>, a11: Expr<A11>, a12: Expr<A12>, a13: Expr<A13>, a14: Expr<A14>, a15: Expr<A15>|
            mut_ref_current(s)@ == ScopeView::fresh(0) && a0@ == arg_view(0) && a1@ == arg_view(1) && a2@ == arg_view(2) && a3@ == arg_view(3) && a4@ == arg_view(4) && a5@ == arg_view(5) && a6@ == arg_view(6) && a7@ == arg_view(7) && a8@ == arg_view(8) && a9@ == arg_view(9) && a10@ == arg_view(10) && a11@ == arg_view(11) && a12@ == arg_view(12) && a13@ == arg_view(13) && a14@ == arg_view(14) && a15@ == arg_view(15) ==> #[trigger] self.requires((s, a0, a1, a2, a3, a4, a5, a6, a7, a8, a9, a10, a11, a12, a13, a14, a15,))
    }

    open spec fn spec_arg_types() -> Seq<TypeView> {
        seq![A0::spec_ty(), A1::spec_ty(), A2::spec_ty(), A3::spec_ty(), A4::spec_ty(), A5::spec_ty(), A6::spec_ty(), A7::spec_ty(), A8::spec_ty(), A9::spec_ty(), A10::spec_ty(), A11::spec_ty(), A12::spec_ty(), A13::spec_ty(), A14::spec_ty(), A15::spec_ty()]
    }

    open spec fn runs(&self, m: &mut Scope<R>, ret: R) -> bool {
        exists|a0: Expr<A0>, a1: Expr<A1>, a2: Expr<A2>, a3: Expr<A3>, a4: Expr<A4>, a5: Expr<A5>, a6: Expr<A6>, a7: Expr<A7>, a8: Expr<A8>, a9: Expr<A9>, a10: Expr<A10>, a11: Expr<A11>, a12: Expr<A12>, a13: Expr<A13>, a14: Expr<A14>, a15: Expr<A15>| a0@ == arg_view(0) && a1@ == arg_view(1) && a2@ == arg_view(2) && a3@ == arg_view(3) && a4@ == arg_view(4) && a5@ == arg_view(5) && a6@ == arg_view(6) && a7@ == arg_view(7) && a8@ == arg_view(8) && a9@ == arg_view(9) && a10@ == arg_view(10) && a11@ == arg_view(11) && a12@ == arg_view(12) && a13@ == arg_view(13) && a14@ == arg_view(14) && a15@ == arg_view(15) && #[trigger] self.ensures((m, a0, a1, a2, a3, a4, a5, a6, a7, a8, a9, a10, a11, a12, a13, a14, a15,), ret)
    }

    fn build_fn(self) -> (r: FunDef<R, (Expr<A0>, Expr<A1>, Expr<A2>, Expr<A3>, Expr<A4>, Expr<A5>, Expr<A6>, Expr<A7>, Expr<A8>, Expr<A9>, Expr<A10>, Expr<A11>, Expr<A12>, Expr<A13>, Expr<A14>, Expr<A15>)>) {
        let a0: Expr<A0> = Expr::new(ErasedExpr::MutVar(ScopedHandle::fun_arg(0)));
        let ghost g0 = a0;
        let a1: Expr<A1> = Expr::new(ErasedExpr::MutVar(ScopedHandle::fun_arg(1)));
        let ghost g1 = a1;
        let a2: Expr<A2> = Expr::new(ErasedExpr::MutVar(ScopedHandle::fun_arg(2)));
        let ghost g2 = a2;
        let a3: Expr<A3> = Expr::new(ErasedExpr::MutVar(ScopedHandle::fun_arg(3)));
        let ghost g3 = a3;
        let a4: Expr<A4> = Expr::new(ErasedExpr::MutVar(ScopedHandle::fun_arg(4)));
        let ghost g4 = a4;
        let a5: Expr<A5> = Expr::new(ErasedExpr::MutVar(ScopedHandle::fun_arg(5)));
        let ghost g5 = a5;
        let a6: Expr<A6> = Expr::new(ErasedExpr::MutVar(ScopedHandle::fun_arg(6)));
        let ghost g6 = a6;
        let a7: Expr<A7> = Expr::new(ErasedExpr::MutVar(ScopedHandle::fun_arg(7)));
        let ghost g7 = a7;
        let a8: Expr<A8> = Expr::new(ErasedExpr::MutVar(ScopedHandle::fun_arg(8)));
        let ghost g8 = a8;
        let a9: Expr<A9> = Expr::new(ErasedExpr::MutVar(ScopedHandle::fun_arg(9)));
        let ghost g9 = a9;
        let a10: Expr<A10> = Expr::new(ErasedExpr::MutVar(ScopedHandle::fun_arg(10)));
        let ghost g10 = a10;
        let a11: Expr<A11> = Expr::new(ErasedExpr::MutVar(ScopedHandle::fun_arg(11)));
        let ghost g11 = a11;
        let a12: Expr<A12> = Expr::new(ErasedExpr::MutVar(ScopedHandle::fun_arg(12)));
        let ghost g12 = a12;
        let a13: Expr<A13> = Expr::new(ErasedExpr::MutVar(ScopedHandle::fun_arg(13)));
        let ghost g13 = a13;
        let a14: Expr<A14> = Expr::new(ErasedExpr::MutVar(ScopedHandle::fun_arg(14)));
        let ghost g14 = a14;
        let a15: Expr<A15> = Expr::new(ErasedExpr::MutVar(ScopedHandle::fun_arg(15)));
        let ghost g15 = a15;
        let mut args: Vec<Type> = Vec::new();
        args.push(A0::ty());
        args.push(A1::ty());
        args.push(A2::ty());
        args.push(A3::ty());
        args.push(A4::ty());
        args.push(A5::ty());
        args.push(A6::ty());
        args.push(A7::ty());
        args.push(A8::ty());
        args.push(A9::ty());
        args.push(A10::ty());
        args.push(A11::ty());
        args.push(A12::ty());
        args.push(A13::ty());
        args.push(A14::ty());
        args.push(A15::ty());
        let mut scope: Scope<R> = Scope::new(0);
        let ghost scope_init = scope;
        let ret = self(&mut scope, a0, a1, a2, a3, a4, a5, a6, a7, a8, a9, a10, a11, a12, a13, a14, a15);
        let ghost ret_g = ret;
        let erased = ErasedFun::new(args, ErasedScope::body(scope.into_erased()), ret.to_return());
        proof {
            assert(erased@.args =~= seq![A0::spec_ty(), A1::spec_ty(), A2::spec_ty(), A3::spec_ty(), A4::spec_ty(), A5::spec_ty(), A6::spec_ty(), A7::spec_ty(), A8::spec_ty(), A9::spec_ty(), A10::spec_ty(), A11::spec_ty(), A12::spec_ty(), A13::spec_ty(), A14::spec_ty(), A15::spec_ty()]);
            assert(exists|m: &mut Scope<R>| #[trigger] self.ensures((m, g0, g1, g2, g3, g4, g5, g6, g7, g8, g9, g10, g11, g12, g13, g14, g15,), ret_g) && mut_ref_current(m) == scope_init && mut_ref_future(m) == scope);
            assert forall|m: &mut Scope<R>| #[trigger] self.ensures((m, g0, g1, g2, g3, g4, g5, g6, g7, g8, g9, g10, g11, g12, g13, g14, g15,), ret_g) implies self.runs(m, ret_g) by {}
            assert(exists|m: &mut Scope<R>| #[trigger] self.runs(m, ret_g) && mut_ref_current(m) == scope_init && mut_ref_future(m) == scope);
        }
        FunDef::new(erased)
    }
}

/// A typed reference to a function returning `R` and taking arguments `A`.
#[derive(Debug, PartialEq)]
pub struct FunHandle<R, A> {
    erased: ErasedFunHandle,
    _phantom: PhantomData<(R, A)>,
}

impl<R, A> FunHandle<R, A> {
    pub(crate) fn new(erased: ErasedFunHandle) -> (r: Self)
        ensures
            r.handle() == erased,
    {
        FunHandle { erased, _phantom: PhantomData }
    }

    /// The untyped function this handle refers to.
    pub closed spec fn handle(&self) -> ErasedFunHandle {
        self.erased
    }

    /// The untyped function this handle refers to.
    pub fn erased(&self) -> (r: ErasedFunHandle)
        ensures
            r == self.handle(),
    {
        self.erased
    }
}

impl<R, A> Clone for FunHandle<R, A> {
    fn clone(&self) -> (r: Self)
        ensures
            r.handle() == self.handle(),
    {
        FunHandle::new(self.erased)
    }
}

impl<R> FunHandle<Expr<R>, ()> {
    pub fn call(&self) -> (r: Expr<R>)
        ensures
            r@ == ExprView::FunCall(self.handle(), Seq::empty()),
    {
        let r = Expr::new(ErasedExpr::FunCall(self.erased, Vec::new()));
        proof {
            assert(r@->FunCall_1 =~= Seq::<ExprView>::empty());
        }
        r
    }
}

impl<R, A> FunHandle<Expr<R>, Expr<A>> {
    pub fn call(&self, a: Expr<A>) -> (r: Expr<R>)
        ensures
            r@ == ExprView::FunCall(self.handle(), seq![a@]),
    {
        let ghost va = a@;
        let mut args: Vec<ErasedExpr> = Vec::new();
        args.push(a.into_erased());
        let r = Expr::new(ErasedExpr::FunCall(self.erased, args));
        proof {
            assert(r@->FunCall_1 =~= seq![va]);
        }
        r
    }
}

impl<R, A, B> FunHandle<Expr<R>, (Expr<A>, Expr<B>)> {
    pub fn call(&self, a: Expr<A>, b: Expr<B>) -> (r: Expr<R>)
        ensures
            r@ == ExprView::FunCall(self.handle(), seq![a@, b@]),
    {
        let ghost va = a@;
        let ghost vb = b@;
        let mut args: Vec<ErasedExpr> = Vec::new();
        args.push(a.into_erased());
        args.push(b.into_erased());
        let r = Expr::new(ErasedExpr::FunCall(self.erased, args));
        proof {
            assert(r@->FunCall_1 =~= seq![va, vb]);
        }
        r
    }
}

impl<R, A, B, C> FunHandle<Expr<R>, (Expr<A>, Expr<B>, Expr<C>)> {
    pub fn call(&self, a: Expr<A>, b: Expr<B>, c: Expr<C>) -> (r: Expr<R>)
        ensures
            r@ == ExprView::FunCall(self.handle(), seq![a@, b@, c@]),
    {
        let ghost va = a@;
        let ghost vb = b@;
        let ghost vc = c@;
        let mut args: Vec<ErasedExpr> = Vec::new();
        args.push(a.into_erased());
        args.push(b.into_erased());
        args.push(c.into_erased());
        let r = Expr::new(ErasedExpr::FunCall(self.erased, args));
        proof {
            assert(r@->FunCall_1 =~= seq![va, vb, vc]);
        }
        r
    }
}

impl<R, A, B, C, D> FunHandle<Expr<R>, (Expr<A>, Expr<B>, Expr<C>, Expr<D>)> {
    pub fn call(&self, a: Expr<A>, b: Expr<B>, c: Expr<C>, d: Expr<D>) -> (r: Expr<R>)
        ensures
            r@ == ExprView::FunCall(self.handle(), seq![a@, b@, c@, d@]),
    {
        let ghost va = a@;
        let ghost vb = b@;
        let ghost vc = c@;
        let ghost vd = d@;
        let mut args: Vec<ErasedExpr> = Vec::new();
        args.push(a.into_erased());
        args.push(b.into_erased());
        args.push(c.into_erased());
        args.push(d.into_erased());
        let r = Expr::new(ErasedExpr::FunCall(self.erased, args));
        proof {
            assert(r@->FunCall_1 =~= seq![va, vb, vc, vd]);
        }
        r
    }
}

impl<R, A, B, C, D, E> FunHandle<Expr<R>, (Expr<A>, Expr<B>, Expr<C>, Expr<D>, Expr<E>)> {
    pub fn call(&self, a: Expr<A>, b: Expr<B>, c: Expr<C>, d: Expr<D>, e: Expr<E>) -> (r: Expr<R>)
        ensures
            r@ == ExprView::FunCall(self.handle(), seq![a@, b@, c@, d@, e@]),
    {
        let ghost va = a@;
        let ghost vb = b@;
        let ghost vc = c@;
        let ghost vd = d@;
        let ghost ve = e@;
        let mut args: Vec<ErasedExpr> = Vec::new();
        args.push(a.into_erased());
        args.push(b.into_erased());
        args.push(c.into_erased());
        args.push(d.into_erased());
        args.push(e.into_erased());
        let r = Expr::new(ErasedExpr::FunCall(self.erased, args));
        proof {
            assert(r@->FunCall_1 =~= seq![va, vb, vc, vd, ve]);
        }
        r
    }
}

impl<R, A, B, C, D, E, F> FunHandle<Expr<R>, (Expr<A>, Expr<B>, Expr<C>, Expr<D>, Expr<E>, Expr<F>)> {
    pub fn call(&self, a: Expr<A>, b: Expr<B>, c: Expr<C>, d: Expr<D>, e: Expr<E>, f: Expr<F>) -> (r: Expr<R>)
        ensures
            r@ == ExprView::FunCall(self.handle(), seq![a@, b@, c@, d@, e@, f@]),
    {
        let ghost va = a@;
        let ghost vb = b@;
        let ghost vc = c@;
        let ghost vd = d@;
        let ghost ve = e@;
        let ghost vf = f@;
        let mut args: Vec<ErasedExpr> = Vec::new();
        args.push(a.into_erased());
        args.push(b.into_erased());
        args.push(c.into_erased());
        args.push(d.into_erased());
        args.push(e.into_erased());
        args.push(f.into_erased());
        let r = Expr::new(ErasedExpr::FunCall(self.erased, args));
        proof {
            assert(r@->FunCall_1 =~= seq![va, vb, vc, vd, ve, vf]);
        }
        r
    }
}

impl<R, A, B, C, D, E, F, G> FunHandle<Expr<R>, (Expr<A>, Expr<B>, Expr<C>, Expr<D>, Expr<E>, Expr<F>, Expr<G>)> {
    pub fn call(&self, a: Expr<A>, b: Expr<B>, c: Expr<C>, d: Expr<D>, e: Expr<E>, f: Expr<F>, g: Expr<G>) -> (r: Expr<R>)
        ensures
            r@ == ExprView::FunCall(self.handle(), seq![a@, b@, c@, d@, e@, f@, g@]),
    {
        let ghost va = a@;
        let ghost vb = b@;
        let ghost vc = c@;
        let ghost vd = d@;
        let ghost ve = e@;
        let ghost vf = f@;
        let ghost vg = g@;
        let mut args: Vec<ErasedExpr> = Vec::new();
        args.push(a.into_erased());
        args.push(b.into_erased());
        args.push(c.into_erased());
        args.push(d.into_erased());
        args.push(e.into_erased());
        args.push(f.into_erased());
        args.push(g.into_erased());
        let r = Expr::new(ErasedExpr::FunCall(self.erased, args));
        proof {
            assert(r@->FunCall_1 =~= seq![va, vb, vc, vd, ve, vf, vg]);
        }
        r
    }
}

impl<R, A, B, C, D, E, F, G, H> FunHandle<Expr<R>, (Expr<A>, Expr<B>, Expr<C>, Expr<D>, Expr<E>, Expr<F>, Expr<G>, Expr<H>)> {
    pub fn call(&self, a: Expr<A>, b: Expr<B>, c: Expr<C>, d: Expr<D>, e: Expr<E>, f: Expr<F>, g: Expr<G>, h: Expr<H>) -> (r: Expr<R>)
        ensures
            r@ == ExprView::FunCall(self.handle(), seq![a@, b@, c@, d@, e@, f@, g@, h@]),
    {
        let ghost va = a@;
        let ghost vb = b@;
        let ghost vc = c@;
        let ghost vd = d@;
        let ghost ve = e@;
        let ghost vf = f@;
        let ghost vg = g@;
        let ghost vh = h@;
        let mut args: Vec<ErasedExpr> = Vec::new();
        args.push(a.into_erased());
        args.push(b.into_erased());
        args.push(c.into_erased());
        args.push(d.into_erased());
        args.push(e.into_erased());
        args.push(f.into_erased());
        args.push(g.into_erased());
        args.push(h.into_erased());
        let r = Expr::new(ErasedExpr::FunCall(self.erased, args));
        proof {
            assert(r@->FunCall_1 =~= seq![va, vb, vc, vd, ve, vf, vg, vh]);
        }
        r
    }
}

impl<R, A, B, C, D, E, F, G, H, I> FunHandle<Expr<R>, (Expr<A>, Expr<B>, Expr<C>, Expr<D>, Expr<E>, Expr<F>, Expr<G>, Expr<H>, Expr<I>)> {
    pub fn call(&self, a: Expr<A>, b: Expr<B>, c: Expr<C>, d: Expr<D>, e: Expr<E>, f: Expr<F>, g: Expr<G>, h: Expr<H>, i: Expr<I>) -> (r: Expr<R>)
        ensures
            r@ == ExprView::FunCall(self.handle(), seq![a@, b@, c@, d@, e@, f@, g@, h@, i@]),
    {
        let ghost va = a@;
        let ghost vb = b@;
        let ghost vc = c@;
        let ghost vd = d@;
        let ghost ve = e@;
        let ghost vf = f@;
        let ghost vg = g@;
        let ghost vh = h@;
        let ghost vi = i@;
        let mut args: Vec<ErasedExpr> = Vec::new();
        args.push(a.into_erased());
        args.push(b.into_erased());
        args.push(c.into_erased());
        args.push(d.into_erased());
        args.push(e.into_erased());
        args.push(f.into_erased());
        args.push(g.into_erased());
        args.push(h.into_erased());
        args.push(i.into_erased());
        let r = Expr::new(ErasedExpr::FunCall(self.erased, args));
        proof {
            assert(r@->FunCall_1 =~= seq![va, vb, vc, vd, ve, vf, vg, vh, vi]);
        }
        r
    }
}

impl<R, A, B, C, D, E, F, G, H, I, J> FunHandle<Expr<R>, (Expr<A>, Expr<B>, Expr<C>, Expr<D>, Expr<E>, Expr<F>, Expr<G>, Expr<H>, Expr<I>, Expr<J>)> {
    pub fn call(&self, a: Expr<A>, b: Expr<B>, c: Expr<C>, d: Expr<D>, e: Expr<E>, f: Expr<F>, g: Expr<G>, h: Expr<H>, i: Expr<I>, j: Expr<J>) -> (r: Expr<R>)
        ensures
            r@ == ExprView::FunCall(self.handle(), seq![a@, b@, c@, d@, e@, f@, g@, h@, i@, j@]),
    {
        let ghost va = a@;
        let ghost vb = b@;
        let ghost vc = c@;
        let ghost vd = d@;
        let ghost ve = e@;
        let ghost vf = f@;
        let ghost vg = g@;
        let ghost vh = h@;
        let ghost vi = i@;
        let ghost vj = j@;
        let mut args: Vec<ErasedExpr> = Vec::new();
        args.push(a.into_erased());
        args.push(b.into_erased());
        args.push(c.into_erased());
        args.push(d.into_erased());
        args.push(e.into_erased());
        args.push(f.into_erased());
        args.push(g.into_erased());
        args.push(h.into_erased());
        args.push(i.into_erased());
        args.push(j.into_erased());
        let r = Expr::new(ErasedExpr::FunCall(self.erased, args));
        proof {
            assert(r@->FunCall_1 =~= seq![va, vb, vc, vd, ve, vf, vg, vh, vi, vj]);
        }
        r
    }
}

impl<R, A, B, C, D, E, F, G, H, I, J, K> FunHandle<Expr<R>, (Expr<A>, Expr<B>, Expr<C>, Expr<D>, Expr<E>, Expr<F>, Expr<G>, Expr<H>, Expr<I>, Expr<J>, Expr<K>)> {
    pub fn call(&self, a: Expr<A>, b: Expr<B>, c: Expr<C>, d: Expr<D>, e: Expr<E>, f: Expr<F>, g: Expr<G>, h: Expr<H>, i: Expr<I>, j: Expr<J>, k: Expr<K>) -> (r: Expr<R>)
        ensures
            r@ == ExprView::FunCall(self.handle(), seq![a@, b@, c@, d@, e@, f@, g@, h@, i@, j@, k@]),
    {
        let ghost va = a@;
        let ghost vb = b@;
        let ghost vc = c@;
        let ghost vd = d@;
        let ghost ve = e@;
        let ghost vf = f@;
        let ghost vg = g@;
        let ghost vh = h@;
        let ghost vi = i@;
        let ghost vj = j@;
        let ghost vk = k@;
        let mut args: Vec<ErasedExpr> = Vec::new();
        args.push(a.into_erased());
        args.push(b.into_erased());
        args.push(c.into_erased());
        args.push(d.into_erased());
        args.push(e.into_erased());
        args.push(f.into_erased());
        args.push(g.into_erased());
        args.push(h.into_erased());
        args.push(i.into_erased());
        args.push(j.into_erased());
        args.push(k.into_erased());
        let r = Expr::new(ErasedExpr::FunCall(self.erased, args));
        proof {
            assert(r@->FunCall_1 =~= seq![va, vb, vc, vd, ve, vf, vg, vh, vi, vj, vk]);
        }
        r
    }
}

impl<R, A, B, C, D, E, F, G, H, I, J, K, L> FunHandle<Expr<R>, (Expr<A>, Expr<B>, Expr<C>, Expr<D>, Expr<E>, Expr<F>, Expr<G>, Expr<H>, Expr<I>, Expr<J>, Expr<K>, Expr<L>)> {
    pub fn call(&self, a: Expr<A>, b: Expr<B>, c: Expr<C>, d: Expr<D>, e: Expr<E>, f: Expr<F>, g: Expr<G>, h: Expr<H>, i: Expr<I>, j: Expr<J>, k: Expr<K>, l: Expr<L>) -> (r: Expr<R>)
        ensures
            r@ == ExprView::FunCall(self.handle(), seq![a@, b@, c@, d@, e@, f@, g@, h@, i@, j@, k@, l@]),
    {
        let ghost va = a@;
        let ghost vb = b@;
        let ghost vc = c@;
        let ghost vd = d@;
        let ghost ve = e@;
        let ghost vf = f@;
        let ghost vg = g@;
        let ghost vh = h@;
        let ghost vi = i@;
        let ghost vj = j@;
        let ghost vk = k@;
        let ghost vl = l@;
        let mut args: Vec<ErasedExpr> = Vec::new();
        args.push(a.into_erased());
        args.push(b.into_erased());
        args.push(c.into_erased());
        args.push(d.into_erased());
        args.push(e.into_erased());
        args.push(f.into_erased());
        args.push(g.into_erased());
        args.push(h.into_erased());
        args.push(i.into_erased());
        args.push(j.into_erased());
        args.push(k.into_erased());
        args.push(l.into_erased());
        let r = Expr::new(ErasedExpr::FunCall(self.erased, args));
        proof {
            assert(r@->FunCall_1 =~= seq![va, vb, vc, vd, ve, vf, vg, vh, vi, vj, vk, vl]);
        }
        r
    }
}

impl<R, A, B, C, D, E, F, G, H, I, J, K, L, M> FunHandle<Expr<R>, (Expr<A>, Expr<B>, Expr<C>, Expr<D>, Expr<E>, Expr<F>, Expr<G>, Expr<H>, Expr<I>, Expr<J>, Expr<K>, Expr<L>, Expr<M>)> {
    pub fn call(&self, a: Expr<A>, b: Expr<B>, c: Expr<C>, d: Expr<D>, e: Expr<E>, f: Expr<F>, g: Expr<G>, h: Expr<H>, i: Expr<I>, j: Expr<J>, k: Expr<K>, l: Expr<L>, m: Expr<M>) -> (r: Expr<R>)
        ensures
            r@ == ExprView::FunCall(self.handle(), seq![a@, b@, c@, d@, e@, f@, g@, h@, i@, j@, k@, l@, m@]),
    {
        let ghost va = a@;
        let ghost vb = b@;
        let ghost vc = c@;
        let ghost vd = d@;
        let ghost ve = e@;
        let ghost vf = f@;
        let ghost vg = g@;
        let ghost vh = h@;
        let ghost vi = i@;
        let ghost vj = j@;
        let ghost vk = k@;
        let ghost vl = l@;
        let ghost vm = m@;
        let mut args: Vec<ErasedExpr> = Vec::new();
        args.push(a.into_erased());
        args.push(b.into_erased());
        args.push(c.into_erased());
        args.push(d.into_erased());
        args.push(e.into_erased());
        args.push(f.into_erased());
        args.push(g.into_erased());
        args.push(h.into_erased());
        args.push(i.into_erased());
        args.push(j.into_erased());
        args.push(k.into_erased());
        args.push(l.into_erased());
        args.push(m.into_erased());
        let r = Expr::new(ErasedExpr::FunCall(self.erased, args));
        proof {
            assert(r@->FunCall_1 =~= seq![va, vb, vc, vd, ve, vf, vg, vh, vi, vj, vk, vl, vm]);
        }
        r
    }
}

impl<R, A, B, C, D, E, F, G, H, I, J, K, L, M, N> FunHandle<Expr<R>, (Expr<A>, Expr<B>, Expr<C>, Expr<D>, Expr<E>, Expr<F>, Expr<G>, Expr<H>, Expr<I>, Expr<J>, Expr<K>, Expr<L>, Expr<M>, Expr<N>)> {
    pub fn call(&self, a: Expr<A>, b: Expr<B>, c: Expr<C>, d: Expr<D>, e: Expr<E>, f: Expr<F>, g: Expr<G>, h: Expr<H>, i: Expr<I>, j: Expr<J>, k: Expr<K>, l: Expr<L>, m: Expr<M>, n: Expr<N>) -> (r: Expr<R>)
        ensures
            r@ == ExprView::FunCall(self.handle(), seq![a@, b@, c@, d@, e@, f@, g@, h@, i@, j@, k@, l@, m@, n@]),
    {
        let ghost va = a@;
        let ghost vb = b@;
        let ghost vc = c@;
        let ghost vd = d@;
        let ghost ve = e@;
        let ghost vf = f@;
        let ghost vg = g@;
        let ghost vh = h@;
        let ghost vi = i@;
        let ghost vj = j@;
        let ghost vk = k@;
        let ghost vl = l@;
        let ghost vm = m@;
        let ghost vn = n@;
        let mut args: Vec<ErasedExpr> = Vec::new();
        args.push(a.into_erased());
        args.push(b.into_erased());
        args.push(c.into_erased());
        args.push(d.into_erased());
        args.push(e.into_erased());
        args.push(f.into_erased());
        args.push(g.into_erased());
        args.push(h.into_erased());
        args.push(i.into_erased());
        args.push(j.into_erased());
        args.push(k.into_erased());
        args.push(l.into_erased());
        args.push(m.into_erased());
        args.push(n.into_erased());
        let r = Expr::new(ErasedExpr::FunCall(self.erased, args));
        proof {
            assert(r@->FunCall_1 =~= seq![va, vb, vc, vd, ve, vf, vg, vh, vi, vj, vk, vl, vm, vn]);
        }
        r
    }
}

impl<R, A, B, C, D, E, F, G, H, I, J, K, L, M, N, O> FunHandle<Expr<R>, (Expr<A>, Expr<B>, Expr<C>, Expr<D>, Expr<E>, Expr<F>, Expr<G>, Expr<H>, Expr<I>, Expr<J>, Expr<K>, Expr<L>, Expr<M>, Expr<N>, Expr<O>)> {
    pub fn call(&self, a: Expr<A>, b: Expr<B>, c: Expr<C>, d: Expr<D>, e: Expr<E>, f: Expr<F>, g: Expr<G>, h: Expr<H>, i: Expr<I>, j: Expr<J>, k: Expr<K>, l: Expr<L>, m: Expr<M>, n: Expr<N>, o: Expr<O>) -> (r: Expr<R>)
        ensures
            r@ == ExprView::FunCall(self.handle(), seq![a@, b@, c@, d@, e@, f@, g@, h@, i@, j@, k@, l@, m@, n@, o@]),
    {
        let ghost va = a@;
        let ghost vb = b@;
        let ghost vc = c@;
        let ghost vd = d@;
        let ghost ve = e@;
        let ghost vf = f@;
        let ghost vg = g@;
        let ghost vh = h@;
        let ghost vi = i@;
        let ghost vj = j@;
        let ghost vk = k@;
        let ghost vl = l@;
        let ghost vm = m@;
        let ghost vn = n@;
        let ghost vo = o@;
        let mut args: Vec<ErasedExpr> = Vec::new();
        args.push(a.into_erased());
        args.push(b.into_erased());
        args.push(c.into_erased());
        args.push(d.into_erased());
        args.push(e.into_erased());
        args.push(f.into_erased());
        args.push(g.into_erased());
        args.push(h.into_erased());
        args.push(i.into_erased());
        args.push(j.into_erased());
        args.push(k.into_erased());
        args.push(l.into_erased());
        args.push(m.into_erased());
        args.push(n.into_erased());
        args.push(o.into_erased());
        let r = Expr::new(ErasedExpr::FunCall(self.erased, args));
        proof {
            assert(r@->FunCall_1 =~= seq![va, vb, vc, vd, ve, vf, vg, vh, vi, vj, vk, vl, vm, vn, vo]);
        }
        r
    }
}

impl<R, A, B, C, D, E, F, G, H, I, J, K, L, M, N, O, P> FunHandle<Expr<R>, (Expr<A>, Expr<B>, Expr<C>, Expr<D>, Expr<E>, Expr<F>, Expr<G>, Expr<H>, Expr<I>, Expr<J>, Expr<K>, Expr<L>, Expr<M>, Expr<N>, Expr<O>, Expr<P>)> {
    pub fn call(&self, a: Expr<A>, b: Expr<B>, c: Expr<C>, d: Expr<D>, e: Expr<E>, f: Expr<F>, g: Expr<G>, h: Expr<H>, i: Expr<I>, j: Expr<J>, k: Expr<K>, l: Expr<L>, m: Expr<M>, n: Expr<N>, o: Expr<O>, p: Expr<P>) -> (r: Expr<R>)
        ensures
            r@ == ExprView::FunCall(self.handle(), seq![a@, b@, c@, d@, e@, f@, g@, h@, i@, j@, k@, l@, m@, n@, o@, p@]),
    {
        let ghost va = a@;
        let ghost vb = b@;
        let ghost vc = c@;
        let ghost vd = d@;
        let ghost ve = e@;
        let ghost vf = f@;
        let ghost vg = g@;
        let ghost vh = h@;
        let ghost vi = i@;
        let ghost vj = j@;
        let ghost vk = k@;
        let ghost vl = l@;
        let ghost vm = m@;
        let ghost vn = n@;
        let ghost vo = o@;
        let ghost vp = p@;
        let mut args: Vec<ErasedExpr> = Vec::new();
        args.push(a.into_erased());
        args.push(b.into_erased());
        args.push(c.into_erased());
        args.push(d.into_erased());
        args.push(e.into_erased());
        args.push(f.into_erased());
        args.push(g.into_erased());
        args.push(h.into_erased());
        args.push(i.into_erased());
        args.push(j.into_erased());
        args.push(k.into_erased());
        args.push(l.into_erased());
        args.push(m.into_erased());
        args.push(n.into_erased());
        args.push(o.into_erased());
        args.push(p.into_erased());
        let r = Expr::new(ErasedExpr::FunCall(self.erased, args));
        proof {
            assert(r@->FunCall_1 =~= seq![va, vb, vc, vd, ve, vf, vg, vh, vi, vj, vk, vl, vm, vn, vo, vp]);
        }
        r
    }
}

} // verus!
