//! The scope builder: records declarations, assignments and structured control
//! flow into an untyped instruction list.

use vstd::prelude::*;

use std::marker::PhantomData;

use crate::expr::{copy_expr, ErasedExpr, ExprView, ScopedHandle};
use crate::typed::{Expr, IntoExpr, Var};
use crate::types::{ToType, Type, TypeView};

verus! {

/// What a function or a `return` statement yields.
#[derive(Clone, Debug, PartialEq)]
pub enum ErasedReturn {
    Void,
    Expr(Type, ErasedExpr),
}

/// The mathematical value of an [`ErasedReturn`].
pub enum ReturnView {
    Void,
    Expr(TypeView, ExprView),
}

impl View for ErasedReturn {
    type V = ReturnView;

    open spec fn view(&self) -> ReturnView {
        match self {
            ErasedReturn::Void => ReturnView::Void,
            ErasedReturn::Expr(t, e) => ReturnView::Expr(t@, e@),
        }
    }
}

/// One statement of a scope.
#[derive(Debug, PartialEq)]
pub enum ScopeInstr {
    VarDecl { ty: Type, handle: ScopedHandle, init_value: ErasedExpr },
    Return(ErasedReturn),
    Continue,
    Break,
    If { condition: ErasedExpr, scope: ErasedScope },
    ElseIf { condition: ErasedExpr, scope: ErasedScope },
    Else { scope: ErasedScope },
    For {
        init_ty: Type,
        init_handle: ScopedHandle,
        init_expr: ErasedExpr,
        condition: ErasedExpr,
        post_expr: ErasedExpr,
        scope: ErasedScope,
    },
    While { condition: ErasedExpr, scope: ErasedScope },
    MutateVar { var: ErasedExpr, expr: ErasedExpr },
}

/// A block: its nesting id, its statements in order, and the next free local index.
#[derive(Debug, PartialEq)]
pub struct ErasedScope {
    pub id: u16,
    pub instructions: Vec<ScopeInstr>,
    pub next_var: u16,
}

/// The mathematical value of a [`ScopeInstr`].
pub enum InstrView {
    VarDecl { ty: TypeView, handle: ScopedHandle, init_value: ExprView },
    Return(ReturnView),
    Continue,
    Break,
    If { condition: ExprView, scope: ScopeView },
    ElseIf { condition: ExprView, scope: ScopeView },
    Else { scope: ScopeView },
    For {
        init_ty: TypeView,
        init_handle: ScopedHandle,
        init_expr: ExprView,
        condition: ExprView,
        post_expr: ExprView,
        scope: ScopeView,
    },
    While { condition: ExprView, scope: ScopeView },
    MutateVar { var: ExprView, expr: ExprView },
}

/// The mathematical value of an [`ErasedScope`].
pub struct ScopeView {
    pub id: u16,
    pub instructions: Seq<InstrView>,
    pub next_var: u16,
}

impl ScopeView {
    /// An empty block with nesting id `id`.
    pub open spec fn fresh(id: u16) -> ScopeView {
        ScopeView { id, instructions: Seq::empty(), next_var: 0 }
    }

    /// This block with `instr` appended.
    pub open spec fn push(self, instr: InstrView) -> ScopeView {
        ScopeView { instructions: self.instructions.push(instr), ..self }
    }

    /// The block that a construct opened in a block of id `parent_id` records,
    /// holding the statements and the local counter of `body`.
    pub open spec fn nested(parent_id: u16, body: ScopeView) -> ScopeView {
        ScopeView { id: (parent_id + 1) as u16, instructions: body.instructions, next_var: body.next_var }
    }
}

impl ScopeView {
    /// The empty block handed to a loop body: local 0 is the induction variable.
    pub open spec fn loop_start(id: u16) -> ScopeView {
        ScopeView { id, instructions: Seq::empty(), next_var: 1 }
    }

    /// The block that a `for` loop opened in a block of id `parent_id` records:
    /// the declaration `decl` of its induction variable, then the statements of `body`.
    pub open spec fn loop_block(parent_id: u16, decl: InstrView, body: ScopeView) -> ScopeView {
        ScopeView {
            id: (parent_id + 1) as u16,
            instructions: seq![decl].add(body.instructions),
            next_var: body.next_var,
        }
    }
}

impl ScopeView {
    /// Every local declared directly in this block is named by the block's id and
    /// an index below `next_var`, and no local is declared twice.
    pub open spec fn wf(self) -> bool {
        &&& forall|i: int|
            0 <= i < self.instructions.len() && (#[trigger] self.instructions[i]) is VarDecl ==> {
                let h = self.instructions[i]->VarDecl_handle;
                h is FunVar && h->subscope == self.id && h->handle < self.next_var
            }
        &&& forall|i: int, j: int|
            0 <= i < j < self.instructions.len() && (#[trigger] self.instructions[i]) is VarDecl
                && (#[trigger] self.instructions[j]) is VarDecl ==> self.instructions[i]->VarDecl_handle
                != self.instructions[j]->VarDecl_handle
    }
}

/// Appending a statement that declares nothing keeps a block well formed.
pub proof fn lemma_push_keeps_wf(s: ScopeView, instr: InstrView)
    requires
        s.wf(),
        !(instr is VarDecl),
    ensures
        s.push(instr).wf(),
{
    let t = s.push(instr);
    assert forall|i: int| 0 <= i < s.instructions.len() implies t.instructions[i] == s.instructions[i] by {}
}

/// Declaring a local under the next free index keeps a block well formed.
pub proof fn lemma_declare_keeps_wf(s: ScopeView, ty: TypeView, init_value: ExprView)
    requires
        s.wf(),
        s.next_var < u16::MAX,
    ensures
        (ScopeView {
            next_var: (s.next_var + 1) as u16,
            ..s.push(InstrView::VarDecl { ty, handle: local_handle(s.id, s.next_var), init_value })
        }).wf(),
{
    let t = s.push(InstrView::VarDecl { ty, handle: local_handle(s.id, s.next_var), init_value });
    assert forall|i: int| 0 <= i < s.instructions.len() implies t.instructions[i] == s.instructions[i] by {}
}

impl ScopeInstr {
    /// The view of this statement, blocks included.
    pub open spec fn model(&self) -> InstrView
        decreases self,
    {
        match self {
            ScopeInstr::VarDecl { ty, handle, init_value } => InstrView::VarDecl {
                ty: ty@,
                handle: *handle,
                init_value: init_value@,
            },
            ScopeInstr::Return(r) => InstrView::Return(r@),
            ScopeInstr::Continue => InstrView::Continue,
            ScopeInstr::Break => InstrView::Break,
            ScopeInstr::If { condition, scope } => InstrView::If {
                condition: condition@,
                scope: scope.model(),
            },
            ScopeInstr::ElseIf { condition, scope } => InstrView::ElseIf {
                condition: condition@,
                scope: scope.model(),
            },
            ScopeInstr::Else { scope } => InstrView::Else { scope: scope.model() },
            ScopeInstr::For { init_ty, init_handle, init_expr, condition, post_expr, scope } =>
                InstrView::For {
                init_ty: init_ty@,
                init_handle: *init_handle,
                init_expr: init_expr@,
                condition: condition@,
                post_expr: post_expr@,
                scope: scope.model(),
            },
            ScopeInstr::While { condition, scope } => InstrView::While {
                condition: condition@,
                scope: scope.model(),
            },
            ScopeInstr::MutateVar { var, expr } => InstrView::MutateVar {
                var: var@,
                expr: expr@,
            },
        }
    }
}

impl ErasedScope {
    /// The view of this block, statement by statement.
    pub open spec fn model(&self) -> ScopeView
        decreases self,
    {
        ScopeView {
            id: self.id,
            instructions: Seq::new(
                self.instructions@.len(),
                |i: int|
                    if 0 <= i < self.instructions@.len() {
                        self.instructions@[i].model()
                    } else {
                        InstrView::Break
                    },
            ),
            next_var: self.next_var,
        }
    }

    /// An empty block with nesting id `id`.
    pub fn new(id: u16) -> (r: ErasedScope)
        ensures
            r@ == ScopeView::fresh(id),
    {
        let r = ErasedScope { id, instructions: Vec::new(), next_var: 0 };
        proof {
            assert(r@.instructions =~= Seq::<InstrView>::empty());
        }
        r
    }

    fn push(&mut self, instr: ScopeInstr)
        ensures
            final(self)@ == old(self)@.push(instr@),
    {
        self.instructions.push(instr);
        proof {
            assert(final(self)@.instructions =~= old(self)@.instructions.push(instr@));
        }
    }

    /// The block recorded for a construct opened in a block of id `parent_id`.
    fn nest(parent_id: u16, body: ErasedScope) -> (r: ErasedScope)
        requires
            parent_id < u16::MAX,
        ensures
            r@ == ScopeView::nested(parent_id, body@),
    {
        let r = ErasedScope { id: parent_id + 1, instructions: body.instructions, next_var: body.next_var };
        proof {
            assert(r@.instructions =~= body@.instructions);
        }
        r
    }
}

impl ErasedScope {
    /// The block recorded for a `for` loop opened in a block of id `parent_id`.
    fn nest_loop(parent_id: u16, decl: ScopeInstr, body: ErasedScope) -> (r: ErasedScope)
        requires
            parent_id < u16::MAX,
        ensures
            r@ == ScopeView::loop_block(parent_id, decl@, body@),
    {
        let ghost d = decl@;
        let mut instructions = body.instructions;
        instructions.insert(0, decl);
        let r = ErasedScope { id: parent_id + 1, instructions, next_var: body.next_var };
        proof {
            assert(r@.instructions =~= seq![d].add(body@.instructions));
        }
        r
    }

    /// The block recorded as a function body: nesting id 0, with the statements
    /// and the local counter of `body`.
    pub fn body(body: ErasedScope) -> (r: ErasedScope)
        ensures
            r@ == (ScopeView { id: 0, ..body@ }),
    {
        let r = ErasedScope { id: 0, instructions: body.instructions, next_var: body.next_var };
        proof {
            assert(r@.instructions =~= body@.instructions);
        }
        r
    }

    fn loop_start(id: u16) -> (r: ErasedScope)
        ensures
            r@ == ScopeView::loop_start(id),
    {
        let r = ErasedScope { id, instructions: Vec::new(), next_var: 1 };
        proof {
            assert(r@.instructions =~= Seq::<InstrView>::empty());
        }
        r
    }
}

impl View for ScopeInstr {
    type V = InstrView;

    open spec fn view(&self) -> InstrView {
        self.model()
    }
}

impl View for ErasedScope {
    type V = ScopeView;

    open spec fn view(&self) -> ScopeView {
        self.model()
    }
}

/// Handles that a value can be assigned to: a [`Var`], by value or by reference.
pub trait IntoVar<T: ?Sized> {
    spec fn spec_var(&self) -> ExprView;

    fn into_var(self) -> (r: Var<T>)
        ensures
            r@ == self.spec_var(),
    ;
}

impl<T: ?Sized> IntoVar<T> for Var<T> {
    open spec fn spec_var(&self) -> ExprView {
        self@
    }

    fn into_var(self) -> (r: Var<T>) {
        self
    }
}

impl<'a, T: ?Sized> IntoVar<T> for &'a Var<T> {
    open spec fn spec_var(&self) -> ExprView {
        (*self)@
    }

    fn into_var(self) -> (r: Var<T>) {
        Var::from_expr(self.to_expr())
    }
}

/// What a scope of a function returning `Self` hands back: nothing for `()`, a
/// typed expression otherwise.
pub trait ToReturn {
    spec fn spec_return(&self) -> ReturnView;

    fn to_return(self) -> (r: ErasedReturn)
        ensures
            r@ == self.spec_return(),
    ;
}

impl ToReturn for () {
    open spec fn spec_return(&self) -> ReturnView {
        ReturnView::Void
    }

    fn to_return(self) -> (r: ErasedReturn) {
        ErasedReturn::Void
    }
}

impl<T: ToType> ToReturn for Expr<T> {
    open spec fn spec_return(&self) -> ReturnView {
        ReturnView::Expr(T::spec_ty(), self@)
    }

    fn to_return(self) -> (r: ErasedReturn) {
        ErasedReturn::Expr(T::ty(), self.into_erased())
    }
}

/// A block under construction, in a function that returns `R`.
#[derive(Debug)]
pub struct Scope<R> {
    erased: ErasedScope,
    _phantom: PhantomData<R>,
}

impl<R> View for Scope<R> {
    type V = ScopeView;

    closed spec fn view(&self) -> ScopeView {
        self.erased@
    }
}

/// The handle of local `n` of block `id`.
pub open spec fn local_handle(id: u16, n: u16) -> ScopedHandle {
    ScopedHandle::FunVar { subscope: id, handle: n }
}

impl<R: ToReturn> Scope<R> {
    /// An empty block with nesting id `id`.
    pub fn new(id: u16) -> (r: Self)
        ensures
            r@ == ScopeView::fresh(id),
            r@.wf(),
    {
        Scope { erased: ErasedScope::new(id), _phantom: PhantomData }
    }

    /// The statements recorded so far.
    pub fn erased(&self) -> (r: &ErasedScope)
        ensures
            r@ == self@,
    {
        &self.erased
    }

    /// The recorded block, by value.
    pub fn into_erased(self) -> (r: ErasedScope)
        ensures
            r@ == self@,
    {
        self.erased
    }

    /// Declares a local initialised to `init_value`.
    pub fn var<T: ToType, E: IntoExpr<T>>(&mut self, init_value: E) -> (r: Var<T>)
        requires
            old(self)@.next_var < u16::MAX,
        ensures
            r@ == ExprView::MutVar(local_handle(old(self)@.id, old(self)@.next_var)),
            final(self)@ == (ScopeView {
                next_var: (old(self)@.next_var + 1) as u16,
                ..old(self)@.push(
                    InstrView::VarDecl {
                        ty: T::spec_ty(),
                        handle: local_handle(old(self)@.id, old(self)@.next_var),
                        init_value: init_value.spec_expr(),
                    },
                )
            }),
            old(self)@.wf() ==> final(self)@.wf(),
    {
        proof {
            if old(self)@.wf() {
                lemma_declare_keeps_wf(old(self)@, T::spec_ty(), init_value.spec_expr());
            }
        }
        let n = self.erased.next_var;
        let handle = ScopedHandle::fun_var(self.erased.id, n);
        self.erased.next_var = n + 1;
        self.erased.push(
            ScopeInstr::VarDecl { ty: T::ty(), handle, init_value: init_value.into_expr().into_erased() },
        );
        Var::new(handle)
    }

    /// Returns `ret` from the enclosing function.
    pub fn leave(&mut self, ret: R)
        ensures
            final(self)@ == old(self)@.push(InstrView::Return(ret.spec_return())),
            old(self)@.wf() ==> final(self)@.wf(),
    {
        proof {
            if old(self)@.wf() {
                lemma_push_keeps_wf(old(self)@, InstrView::Return(ret.spec_return()));
            }
        }
        self.erased.push(ScopeInstr::Return(ret.to_return()));
    }

    /// Returns from the enclosing function without a value.
    pub fn abort(&mut self)
        ensures
            final(self)@ == old(self)@.push(InstrView::Return(ReturnView::Void)),
            old(self)@.wf() ==> final(self)@.wf(),
    {
        proof {
            if old(self)@.wf() {
                lemma_push_keeps_wf(old(self)@, InstrView::Return(ReturnView::Void));
            }
        }
        self.erased.push(ScopeInstr::Return(ErasedReturn::Void));
    }

    fn deeper(&self) -> (r: Self)
        requires
            self@.id < u16::MAX,
        ensures
            r@ == ScopeView::fresh((self@.id + 1) as u16),
    {
        Scope::new(self.erased.id + 1)
    }

    /// Opens an `if` block: runs `body` on a fresh nested block and records it
    /// under `condition`. The returned [`When`] chains `else if` and `else` blocks.
    pub fn when<C: IntoExpr<bool>, F: Fn(&mut Scope<R>)>(&mut self, condition: C, body: F) -> (r: When<'_, R>)
        requires
            old(self)@.id < u16::MAX,
            forall|s: &mut Scope<R>| mut_ref_current(s)@ == ScopeView::fresh((old(self)@.id + 1) as u16) ==> #[trigger] body.requires((s,)),
        ensures
            mut_ref_future(r.parent) == *final(self),
            exists|m: &mut Scope<R>|
                mut_ref_current(m)@ == ScopeView::fresh((old(self)@.id + 1) as u16)
                && #[trigger] body.ensures((m,), ())
                && mut_ref_current(r.parent)@ == old(self)@.push(
                    InstrView::If { condition: condition.spec_expr(), scope: ScopeView::nested(old(self)@.id, mut_ref_future(m)@) },
                ),
            old(self)@.wf() ==> mut_ref_current(r.parent)@.wf(),
    {
        let mut sub = self.deeper();
        let ghost sub_init = sub;
        body(&mut sub);
        proof {
            assert(exists|m: &mut Scope<R>| #[trigger] body.ensures((m,), ()) && mut_ref_current(m) == sub_init && mut_ref_future(m) == sub);
        }
        let nested = ErasedScope::nest(self.erased.id, sub.erased);
        let ghost pre = self.erased@;
        self.erased.push(ScopeInstr::If { condition: condition.into_expr().into_erased(), scope: nested });
        proof {
            if pre.wf() {
                lemma_push_keeps_wf(pre, self.erased@.instructions.last());
            }
        }
        When { parent: self }
    }

    /// Opens an `if` block taken when `condition` does not hold.
    pub fn unless<C: IntoExpr<bool>, F: Fn(&mut Scope<R>)>(&mut self, condition: C, body: F) -> (r: When<'_, R>)
        requires
            old(self)@.id < u16::MAX,
            forall|s: &mut Scope<R>| mut_ref_current(s)@ == ScopeView::fresh((old(self)@.id + 1) as u16) ==> #[trigger] body.requires((s,)),
        ensures
            mut_ref_future(r.parent) == *final(self),
            exists|m: &mut Scope<R>|
                mut_ref_current(m)@ == ScopeView::fresh((old(self)@.id + 1) as u16)
                && #[trigger] body.ensures((m,), ())
                && mut_ref_current(r.parent)@ == old(self)@.push(
                    InstrView::If {
                        condition: ExprView::Not(Box::new(condition.spec_expr())),
                        scope: ScopeView::nested(old(self)@.id, mut_ref_future(m)@),
                    },
                ),
            old(self)@.wf() ==> mut_ref_current(r.parent)@.wf(),
    {
        let negated: Expr<bool> = Expr::new(ErasedExpr::Not(Box::new(condition.into_expr().into_erased())));
        self.when(negated, body)
    }

    /// Records a `while` loop over `condition` whose body `body` builds.
    pub fn loop_while<C: IntoExpr<bool>, F: Fn(&mut Scope<R>)>(&mut self, condition: C, body: F)
        requires
            old(self)@.id < u16::MAX,
            forall|s: &mut Scope<R>| mut_ref_current(s)@ == ScopeView::fresh((old(self)@.id + 1) as u16) ==> #[trigger] body.requires((s,)),
        ensures
            exists|m: &mut Scope<R>|
                mut_ref_current(m)@ == ScopeView::fresh((old(self)@.id + 1) as u16)
                && #[trigger] body.ensures((m,), ())
                && final(self)@ == old(self)@.push(
                    InstrView::While { condition: condition.spec_expr(), scope: ScopeView::nested(old(self)@.id, mut_ref_future(m)@) },
                ),
            old(self)@.wf() ==> final(self)@.wf(),
    {
        let mut sub = self.deeper();
        let ghost sub_init = sub;
        body(&mut sub);
        proof {
            assert(exists|m: &mut Scope<R>| #[trigger] body.ensures((m,), ()) && mut_ref_current(m) == sub_init && mut_ref_future(m) == sub);
        }
        let nested = ErasedScope::nest(self.erased.id, sub.erased);
        let ghost pre = self.erased@;
        self.erased.push(ScopeInstr::While { condition: condition.into_expr().into_erased(), scope: nested });
        proof {
            if pre.wf() {
                lemma_push_keeps_wf(pre, self.erased@.instructions.last());
            }
        }
    }

    /// Records a `for` loop. Its induction variable is local 0 of the loop block,
    /// declared with `init_value`; `condition` and `iter_fold` build the loop test and
    /// the next value from it, and `body` builds the loop body.
    pub fn loop_for<T: ToType, I: IntoExpr<T>, C: Fn(&Expr<T>) -> Expr<bool>, S: Fn(&Expr<T>) -> Expr<T>, B: Fn(&mut Scope<R>, &Expr<T>)>(
        &mut self,
        init_value: I,
        condition: C,
        iter_fold: S,
        body: B,
    )
        requires
            old(self)@.id < u16::MAX,
            forall|e: &Expr<T>| #[trigger] condition.requires((e,)),
            forall|e: &Expr<T>| #[trigger] iter_fold.requires((e,)),
            forall|s: &mut Scope<R>, e: &Expr<T>|
                mut_ref_current(s)@ == ScopeView::loop_start((old(self)@.id + 1) as u16) ==> #[trigger] body.requires((s, e)),
        ensures
            exists|ind: Expr<T>, c: Expr<bool>, p: Expr<T>, m: &mut Scope<R>|
                ind@ == ExprView::MutVar(local_handle((old(self)@.id + 1) as u16, 0))
                && #[trigger] condition.ensures((&ind,), c)
                && #[trigger] iter_fold.ensures((&ind,), p)
                && mut_ref_current(m)@ == ScopeView::loop_start((old(self)@.id + 1) as u16)
                && #[trigger] body.ensures((m, &ind), ())
                && final(self)@ == old(self)@.push(
                    InstrView::For {
                        init_ty: T::spec_ty(),
                        init_handle: local_handle((old(self)@.id + 1) as u16, 0),
                        init_expr: ind@,
                        condition: c@,
                        post_expr: p@,
                        scope: ScopeView::loop_block(
                            old(self)@.id,
                            InstrView::VarDecl {
                                ty: T::spec_ty(),
                                handle: local_handle((old(self)@.id + 1) as u16, 0),
                                init_value: init_value.spec_expr(),
                            },
                            mut_ref_future(m)@,
                        ),
                    },
                ),
            old(self)@.wf() ==> final(self)@.wf(),
    {
        let id = self.erased.id + 1;
        let handle = ScopedHandle::fun_var(id, 0);
        let mut sub: Scope<R> = Scope { erased: ErasedScope::loop_start(id), _phantom: PhantomData };
        let decl = ScopeInstr::VarDecl { ty: T::ty(), handle, init_value: init_value.into_expr().into_erased() };
        let induction: Expr<T> = Expr::new(ErasedExpr::MutVar(handle));
        let cond = condition(&induction);
        let post = iter_fold(&induction);
        let ghost sub_init = sub;
        body(&mut sub, &induction);
        proof {
            assert(exists|m: &mut Scope<R>| #[trigger] body.ensures((m, &induction), ()) && mut_ref_current(m) == sub_init && mut_ref_future(m) == sub);
        }
        let nested = ErasedScope::nest_loop(self.erased.id, decl, sub.erased);
        let ghost pre = self.erased@;
        self.erased.push(
            ScopeInstr::For {
                init_ty: T::ty(),
                init_handle: handle,
                init_expr: copy_expr(induction.erased()),
                condition: cond.into_erased(),
                post_expr: post.into_erased(),
                scope: nested,
            },
        );
        proof {
            if pre.wf() {
                lemma_push_keeps_wf(pre, self.erased@.instructions.last());
            }
        }
    }

    /// Skips to the next iteration of the enclosing loop.
    pub fn loop_continue(&mut self)
        ensures
            final(self)@ == old(self)@.push(InstrView::Continue),
            old(self)@.wf() ==> final(self)@.wf(),
    {
        proof {
            if old(self)@.wf() {
                lemma_push_keeps_wf(old(self)@, InstrView::Continue);
            }
        }
        self.erased.push(ScopeInstr::Continue);
    }

    /// Leaves the enclosing loop.
    pub fn loop_break(&mut self)
        ensures
            final(self)@ == old(self)@.push(InstrView::Break),
            old(self)@.wf() ==> final(self)@.wf(),
    {
        proof {
            if old(self)@.wf() {
                lemma_push_keeps_wf(old(self)@, InstrView::Break);
            }
        }
        self.erased.push(ScopeInstr::Break);
    }

    /// Assigns `value` to `var`.
    pub fn set<T, V: IntoVar<T>, E: IntoExpr<T>>(&mut self, var: V, value: E)
        ensures
            final(self)@ == old(self)@.push(
                InstrView::MutateVar { var: var.spec_var(), expr: value.spec_expr() },
            ),
            old(self)@.wf() ==> final(self)@.wf(),
    {
        proof {
            if old(self)@.wf() {
                lemma_push_keeps_wf(old(self)@, InstrView::MutateVar { var: var.spec_var(), expr: value.spec_expr() });
            }
        }
        self.erased.push(
            ScopeInstr::MutateVar {
                var: var.into_var().to_expr().into_erased(),
                expr: value.into_expr().into_erased(),
            },
        );
    }
}

/// An `if` statement under construction, to which `else if` and `else` blocks can be chained.
pub struct When<'a, R> {
    /// The block that holds the `if` statement.
    pub parent: &'a mut Scope<R>,
}

impl<'a, R: ToReturn> When<'a, R> {
    /// Appends an `else if` block under `condition`, built by `body`.
    pub fn or_else<C: IntoExpr<bool>, F: Fn(&mut Scope<R>)>(self, condition: C, body: F) -> (r: Self)
        requires
            mut_ref_current(self.parent)@.id < u16::MAX,
            forall|s: &mut Scope<R>| mut_ref_current(s)@ == ScopeView::fresh((mut_ref_current(self.parent)@.id + 1) as u16) ==> #[trigger] body.requires((s,)),
        ensures
            mut_ref_future(r.parent) == mut_ref_future(self.parent),
            exists|m: &mut Scope<R>|
                mut_ref_current(m)@ == ScopeView::fresh((mut_ref_current(self.parent)@.id + 1) as u16)
                && #[trigger] body.ensures((m,), ())
                && mut_ref_current(r.parent)@ == mut_ref_current(self.parent)@.push(
                    InstrView::ElseIf {
                        condition: condition.spec_expr(),
                        scope: ScopeView::nested(mut_ref_current(self.parent)@.id, mut_ref_future(m)@),
                    },
                ),
            mut_ref_current(self.parent)@.wf() ==> mut_ref_current(r.parent)@.wf(),
    {
        let mut sub = self.parent.deeper();
        let ghost sub_init = sub;
        body(&mut sub);
        proof {
            assert(exists|m: &mut Scope<R>| #[trigger] body.ensures((m,), ()) && mut_ref_current(m) == sub_init && mut_ref_future(m) == sub);
        }
        let nested = ErasedScope::nest(self.parent.erased.id, sub.erased);
        let ghost pre = self.parent.erased@;
        self.parent.erased.push(ScopeInstr::ElseIf { condition: condition.into_expr().into_erased(), scope: nested });
        proof {
            if pre.wf() {
                lemma_push_keeps_wf(pre, self.parent.erased@.instructions.last());
            }
        }
        self
    }

    /// Appends the final `else` block, built by `body`.
    pub fn or<F: Fn(&mut Scope<R>)>(self, body: F)
        requires
            mut_ref_current(self.parent)@.id < u16::MAX,
            forall|s: &mut Scope<R>| mut_ref_current(s)@ == ScopeView::fresh((mut_ref_current(self.parent)@.id + 1) as u16) ==> #[trigger] body.requires((s,)),
        ensures
            exists|m: &mut Scope<R>|
                mut_ref_current(m)@ == ScopeView::fresh((mut_ref_current(self.parent)@.id + 1) as u16)
                && #[trigger] body.ensures((m,), ())
                && mut_ref_future(self.parent)@ == mut_ref_current(self.parent)@.push(
                    InstrView::Else { scope: ScopeView::nested(mut_ref_current(self.parent)@.id, mut_ref_future(m)@) },
                ),
            mut_ref_current(self.parent)@.wf() ==> mut_ref_future(self.parent)@.wf(),
    {
        let mut sub = self.parent.deeper();
        let ghost sub_init = sub;
        body(&mut sub);
        proof {
            assert(exists|m: &mut Scope<R>| #[trigger] body.ensures((m,), ()) && mut_ref_current(m) == sub_init && mut_ref_future(m) == sub);
        }
        let nested = ErasedScope::nest(self.parent.erased.id, sub.erased);
        let ghost pre = self.parent.erased@;
        self.parent.erased.push(ScopeInstr::Else { scope: nested });
        proof {
            if pre.wf() {
                lemma_push_keeps_wf(pre, self.parent.erased@.instructions.last());
            }
        }
    }
}

} // verus!
