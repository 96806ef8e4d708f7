//! The shader module: top-level declarations in registration order.

use vstd::prelude::*;

use crate::env::{FragmentShaderEnv, GeometryShaderEnv, TessCtrlShaderEnv, TessEvalShaderEnv, VertexShaderEnv};
use crate::expr::{ErasedExpr, ErasedFunHandle, ExprView, ScopedHandle};
use crate::fun::{ErasedFun, FunHandle, FunView, ToFun};
use crate::scope::{Scope, ScopeView, ToReturn};
use crate::typed::{Expr, Var};
use crate::types::{ToType, Type, TypeView};

verus! {

/// A top-level declaration.
#[derive(Debug, PartialEq)]
pub enum ShaderDecl {
    /// The entry point.
    Main(ErasedFun),
    /// A user-defined function and its handle.
    FunDef(u16, ErasedFun),
    /// A constant at a global index.
    Const(u16, Type, ErasedExpr),
    /// An input at a global index.
    In(u16, Type),
    /// An output at a global index.
    Out(u16, Type),
}

/// The mathematical value of a [`ShaderDecl`].
pub enum DeclView {
    Main(FunView),
    FunDef(u16, FunView),
    Const(u16, TypeView, ExprView),
    In(u16, TypeView),
    Out(u16, TypeView),
}

impl View for ShaderDecl {
    type V = DeclView;

    open spec fn view(&self) -> DeclView {
        match self {
            ShaderDecl::Main(f) => DeclView::Main(f@),
            ShaderDecl::FunDef(h, f) => DeclView::FunDef(*h, f@),
            ShaderDecl::Const(h, t, e) => DeclView::Const(*h, t@, e@),
            ShaderDecl::In(h, t) => DeclView::In(*h, t@),
            ShaderDecl::Out(h, t) => DeclView::Out(*h, t@),
        }
    }
}

/// The mathematical value of a [`Shader`].
pub struct ShaderView {
    pub decls: Seq<DeclView>,
    pub next_fun_handle: u16,
    pub next_global_handle: u16,
}

impl ShaderView {
    /// A shader without declarations.
    pub open spec fn empty() -> ShaderView {
        ShaderView { decls: Seq::empty(), next_fun_handle: 0, next_global_handle: 0 }
    }

    /// Whether the entry point has been defined.
    pub open spec fn has_main(self) -> bool {
        exists|i: int| 0 <= i < self.decls.len() && #[trigger] self.decls[i] is Main
    }

    /// This shader after registering the user function `f`.
    pub open spec fn with_fun(self, f: FunView) -> ShaderView {
        ShaderView {
            decls: self.decls.push(DeclView::FunDef(self.next_fun_handle, f)),
            next_fun_handle: (self.next_fun_handle + 1) as u16,
            ..self
        }
    }

    /// This shader after registering the entry point `f`.
    pub open spec fn with_main(self, f: FunView) -> ShaderView {
        ShaderView { decls: self.decls.push(DeclView::Main(f)), ..self }
    }

    /// This shader after registering a constant of type `ty` with value `e`.
    pub open spec fn with_constant(self, ty: TypeView, e: ExprView) -> ShaderView {
        ShaderView {
            decls: self.decls.push(DeclView::Const(self.next_global_handle, ty, e)),
            next_global_handle: (self.next_global_handle + 1) as u16,
            ..self
        }
    }

    /// This shader after registering an input of type `ty`.
    pub open spec fn with_input(self, ty: TypeView) -> ShaderView {
        ShaderView {
            decls: self.decls.push(DeclView::In(self.next_global_handle, ty)),
            next_global_handle: (self.next_global_handle + 1) as u16,
            ..self
        }
    }

    /// This shader after registering an output of type `ty`.
    pub open spec fn with_output(self, ty: TypeView) -> ShaderView {
        ShaderView {
            decls: self.decls.push(DeclView::Out(self.next_global_handle, ty)),
            next_global_handle: (self.next_global_handle + 1) as u16,
            ..self
        }
    }
}

/// The global index that a declaration takes, if any.
pub open spec fn global_index(d: DeclView) -> Option<u16> {
    match d {
        DeclView::Const(h, _, _) => Some(h),
        DeclView::In(h, _) => Some(h),
        DeclView::Out(h, _) => Some(h),
        _ => None,
    }
}

/// The function handle that a declaration takes, if any.
pub open spec fn fun_index(d: DeclView) -> Option<u16> {
    match d {
        DeclView::FunDef(h, _) => Some(h),
        _ => None,
    }
}

impl ShaderView {
    /// Global indices and function handles are below their counters and never
    /// taken twice, and the entry point is defined at most once.
    pub open spec fn wf(self) -> bool {
        &&& forall|i: int|
            0 <= i < self.decls.len() && (#[trigger] global_index(self.decls[i])) is Some
                ==> global_index(self.decls[i])->0 < self.next_global_handle
        &&& forall|i: int|
            0 <= i < self.decls.len() && (#[trigger] fun_index(self.decls[i])) is Some
                ==> fun_index(self.decls[i])->0 < self.next_fun_handle
        &&& forall|i: int, j: int|
            0 <= i < j < self.decls.len() && (#[trigger] global_index(self.decls[i])) is Some
                ==> global_index(self.decls[i]) != #[trigger] global_index(self.decls[j])
        &&& forall|i: int, j: int|
            0 <= i < j < self.decls.len() && (#[trigger] fun_index(self.decls[i])) is Some
                ==> fun_index(self.decls[i]) != #[trigger] fun_index(self.decls[j])
        &&& forall|i: int, j: int|
            0 <= i < j < self.decls.len() && (#[trigger] self.decls[i]) is Main ==> !((#[trigger] self.decls[j]) is Main)
    }
}

/// Registering a function or the entry point keeps a shader well formed.
pub proof fn lemma_function_registration_keeps_wf(s: ShaderView, f: FunView)
    requires
        s.wf(),
    ensures
        s.next_fun_handle < u16::MAX ==> s.with_fun(f).wf(),
        !s.has_main() ==> s.with_main(f).wf(),
{
    let n = s.decls.len() as int;
    if s.next_fun_handle < u16::MAX {
        let t = s.with_fun(f);
        assert forall|i: int| 0 <= i < n implies t.decls[i] == s.decls[i] by {}
    }
    if !s.has_main() {
        let t = s.with_main(f);
        assert forall|i: int| 0 <= i < n implies t.decls[i] == s.decls[i] by {}
        assert forall|i: int, j: int|
            0 <= i < j < t.decls.len() && (#[trigger] t.decls[i]) is Main implies !((#[trigger] t.decls[j]) is Main) by {
            if j == n {
                assert(s.decls[i] is Main);
            }
        }
    }
}

/// Registering a constant, an input or an output keeps a shader well formed.
pub proof fn lemma_global_registration_keeps_wf(s: ShaderView, ty: TypeView, e: ExprView)
    requires
        s.wf(),
        s.next_global_handle < u16::MAX,
    ensures
        s.with_constant(ty, e).wf(),
        s.with_input(ty).wf(),
        s.with_output(ty).wf(),
{
    let n = s.decls.len() as int;
    let t1 = s.with_constant(ty, e);
    let t2 = s.with_input(ty);
    let t3 = s.with_output(ty);
    assert forall|i: int| 0 <= i < n implies t1.decls[i] == s.decls[i] && t2.decls[i] == s.decls[i] && t3.decls[i]
        == s.decls[i] by {}
}

/// A shader being built, or built: its declarations in the order they were registered.
#[derive(Debug)]
pub struct Shader {
    decls: Vec<ShaderDecl>,
    next_fun_handle: u16,
    next_global_handle: u16,
}

impl View for Shader {
    type V = ShaderView;

    closed spec fn view(&self) -> ShaderView {
        ShaderView {
            decls: Seq::new(self.decls@.len(), |i: int| self.decls@[i]@),
            next_fun_handle: self.next_fun_handle,
            next_global_handle: self.next_global_handle,
        }
    }
}

impl Shader {
    /// A shader without declarations.
    pub fn new() -> (r: Self)
        ensures
            r@ == ShaderView::empty(),
            r@.wf(),
    {
        let r = Shader { decls: Vec::new(), next_fun_handle: 0, next_global_handle: 0 };
        proof {
            assert(r@.decls =~= Seq::<DeclView>::empty());
        }
        r
    }

    /// Builds a vertex shader: `f` registers its declarations, given the stage's built-ins.
    pub fn new_vertex_shader<F: FnOnce(&mut Shader, VertexShaderEnv)>(f: F) -> (r: Self)
        requires
            forall|m: &mut Shader, env: VertexShaderEnv|
                mut_ref_current(m)@ == ShaderView::empty() && env.is_standard() ==> #[trigger] f.requires((m, env)),
        ensures
            exists|m: &mut Shader, env: VertexShaderEnv|
                mut_ref_current(m)@ == ShaderView::empty() && env.is_standard() && #[trigger] f.ensures((m, env), ())
                && r@ == mut_ref_future(m)@,
    {
        let mut shader = Shader::new();
        let env = VertexShaderEnv::new();
        let ghost init = shader;
        let ghost env_g = env;
        f(&mut shader, env);
        proof {
            assert(exists|m: &mut Shader| #[trigger] f.ensures((m, env_g), ()) && mut_ref_current(m) == init && mut_ref_future(m) == shader);
        }
        shader
    }

    /// Builds a tessellation-control shader: `f` registers its declarations, given the stage's built-ins.
    pub fn new_tess_ctrl_shader<F: FnOnce(&mut Shader, TessCtrlShaderEnv)>(f: F) -> (r: Self)
        requires
            forall|m: &mut Shader, env: TessCtrlShaderEnv|
                mut_ref_current(m)@ == ShaderView::empty() && env.is_standard() ==> #[trigger] f.requires((m, env)),
        ensures
            exists|m: &mut Shader, env: TessCtrlShaderEnv|
                mut_ref_current(m)@ == ShaderView::empty() && env.is_standard() && #[trigger] f.ensures((m, env), ())
                && r@ == mut_ref_future(m)@,
    {
        let mut shader = Shader::new();
        let env = TessCtrlShaderEnv::new();
        let ghost init = shader;
        let ghost env_g = env;
        f(&mut shader, env);
        proof {
            assert(exists|m: &mut Shader| #[trigger] f.ensures((m, env_g), ()) && mut_ref_current(m) == init && mut_ref_future(m) == shader);
        }
        shader
    }

    /// Builds a tessellation-evaluation shader: `f` registers its declarations, given the stage's built-ins.
    pub fn new_tess_eval_shader<F: FnOnce(&mut Shader, TessEvalShaderEnv)>(f: F) -> (r: Self)
        requires
            forall|m: &mut Shader, env: TessEvalShaderEnv|
                mut_ref_current(m)@ == ShaderView::empty() && env.is_standard() ==> #[trigger] f.requires((m, env)),
        ensures
            exists|m: &mut Shader, env: TessEvalShaderEnv|
                mut_ref_current(m)@ == ShaderView::empty() && env.is_standard() && #[trigger] f.ensures((m, env), ())
                && r@ == mut_ref_future(m)@,
    {
        let mut shader = Shader::new();
        let env = TessEvalShaderEnv::new();
        let ghost init = shader;
        let ghost env_g = env;
        f(&mut shader, env);
        proof {
            assert(exists|m: &mut Shader| #[trigger] f.ensures((m, env_g), ()) && mut_ref_current(m) == init && mut_ref_future(m) == shader);
        }
        shader
    }

    /// Builds a geometry shader: `f` registers its declarations, given the stage's built-ins.
    pub fn new_geometry_shader<F: FnOnce(&mut Shader, GeometryShaderEnv)>(f: F) -> (r: Self)
        requires
            forall|m: &mut Shader, env: GeometryShaderEnv|
                mut_ref_current(m)@ == ShaderView::empty() && env.is_standard() ==> #[trigger] f.requires((m, env)),
        ensures
            exists|m: &mut Shader, env: GeometryShaderEnv|
                mut_ref_current(m)@ == ShaderView::empty() && env.is_standard() && #[trigger] f.ensures((m, env), ())
                && r@ == mut_ref_future(m)@,
    {
        let mut shader = Shader::new();
        let env = GeometryShaderEnv::new();
        let ghost init = shader;
        let ghost env_g = env;
        f(&mut shader, env);
        proof {
            assert(exists|m: &mut Shader| #[trigger] f.ensures((m, env_g), ()) && mut_ref_current(m) == init && mut_ref_future(m) == shader);
        }
        shader
    }

    /// Builds a fragment shader: `f` registers its declarations, given the stage's built-ins.
    pub fn new_fragment_shader<F: FnOnce(&mut Shader, FragmentShaderEnv)>(f: F) -> (r: Self)
        requires
            forall|m: &mut Shader, env: FragmentShaderEnv|
                mut_ref_current(m)@ == ShaderView::empty() && env.is_standard() ==> #[trigger] f.requires((m, env)),
        ensures
            exists|m: &mut Shader, env: FragmentShaderEnv|
                mut_ref_current(m)@ == ShaderView::empty() && env.is_standard() && #[trigger] f.ensures((m, env), ())
                && r@ == mut_ref_future(m)@,
    {
        let mut shader = Shader::new();
        let env = FragmentShaderEnv::new();
        let ghost init = shader;
        let ghost env_g = env;
        f(&mut shader, env);
        proof {
            assert(exists|m: &mut Shader| #[trigger] f.ensures((m, env_g), ()) && mut_ref_current(m) == init && mut_ref_future(m) == shader);
        }
        shader
    }

    /// The declarations, in registration order.
    pub fn decls(&self) -> (r: &Vec<ShaderDecl>)
        ensures
            r@.len() == self@.decls.len(),
            forall|i: int| 0 <= i < r@.len() ==> (#[trigger] r@[i])@ == self@.decls[i],
    {
        &self.decls
    }

    /// The handle the next user function gets.
    pub fn next_fun_handle(&self) -> (r: u16)
        ensures
            r == self@.next_fun_handle,
    {
        self.next_fun_handle
    }

    /// The index the next constant, input or output gets.
    pub fn next_global_handle(&self) -> (r: u16)
        ensures
            r == self@.next_global_handle,
    {
        self.next_global_handle
    }

    fn push(&mut self, decl: ShaderDecl)
        ensures
            final(self)@ == (ShaderView { decls: old(self)@.decls.push(decl@), ..old(self)@ }),
    {
        self.decls.push(decl);
        proof {
            assert(final(self)@.decls =~= old(self)@.decls.push(decl@));
        }
    }

    /// Registers a user function built by `f` under a fresh function handle.
    pub fn fun<F: ToFun<R, A>, R: ToReturn, A>(&mut self, f: F) -> (r: FunHandle<R, A>)
        requires
            old(self)@.next_fun_handle < u16::MAX,
            f.accepts(),
        ensures
            r.handle() == ErasedFunHandle::UserDefined(old(self)@.next_fun_handle),
            exists|m: &mut Scope<R>, ret: R|
                mut_ref_current(m)@ == ScopeView::fresh(0) && #[trigger] f.runs(m, ret) && final(self)@
                    == old(self)@.with_fun(
                    FunView {
                        args: F::spec_arg_types(),
                        scope: ScopeView { id: 0, ..mut_ref_future(m)@ },
                        ret: ret.spec_return(),
                    },
                ),
            old(self)@.wf() ==> final(self)@.wf(),
    {
        let fundef = f.build_fn();
        let ghost d = fundef@;
        let handle = self.next_fun_handle;
        self.next_fun_handle = handle + 1;
        self.push(ShaderDecl::FunDef(handle, fundef.into_erased()));
        assert(self@ == old(self)@.with_fun(d));
        proof {
            if old(self)@.wf() {
                lemma_function_registration_keeps_wf(old(self)@, d);
            }
        }
        FunHandle::new(ErasedFunHandle::UserDefined(handle))
    }

    /// Registers the entry point, built by `f`.
    pub fn main_fun<F: ToFun<R, ()>, R: ToReturn>(&mut self, f: F) -> (r: FunHandle<R, ()>)
        requires
            !old(self)@.has_main(),
            f.accepts(),
        ensures
            r.handle() == ErasedFunHandle::Main,
            exists|m: &mut Scope<R>, ret: R|
                mut_ref_current(m)@ == ScopeView::fresh(0) && #[trigger] f.runs(m, ret) && final(self)@
                    == old(self)@.with_main(
                    FunView {
                        args: F::spec_arg_types(),
                        scope: ScopeView { id: 0, ..mut_ref_future(m)@ },
                        ret: ret.spec_return(),
                    },
                ),
            old(self)@.wf() ==> final(self)@.wf(),
    {
        let fundef = f.build_fn();
        let ghost d = fundef@;
        self.push(ShaderDecl::Main(fundef.into_erased()));
        assert(self@ == old(self)@.with_main(d));
        proof {
            if old(self)@.wf() {
                lemma_function_registration_keeps_wf(old(self)@, d);
            }
        }
        FunHandle::new(ErasedFunHandle::Main)
    }

    /// Registers a constant with value `expr` under a fresh global index.
    pub fn constant<T: ToType>(&mut self, expr: Expr<T>) -> (r: Var<T>)
        requires
            old(self)@.next_global_handle < u16::MAX,
        ensures
            r@ == ExprView::MutVar(ScopedHandle::Global(old(self)@.next_global_handle)),
            final(self)@ == old(self)@.with_constant(T::spec_ty(), expr@),
            old(self)@.wf() ==> final(self)@.wf(),
    {
        proof {
            if old(self)@.wf() {
                lemma_global_registration_keeps_wf(old(self)@, T::spec_ty(), expr@);
            }
        }
        let handle = self.next_global_handle;
        self.next_global_handle = handle + 1;
        self.push(ShaderDecl::Const(handle, T::ty(), expr.into_erased()));
        Var::new(ScopedHandle::global(handle))
    }

    /// Registers an input under a fresh global index.
    pub fn input<T: ToType>(&mut self) -> (r: Var<T>)
        requires
            old(self)@.next_global_handle < u16::MAX,
        ensures
            r@ == ExprView::MutVar(ScopedHandle::Global(old(self)@.next_global_handle)),
            final(self)@ == old(self)@.with_input(T::spec_ty()),
            old(self)@.wf() ==> final(self)@.wf(),
    {
        proof {
            if old(self)@.wf() {
                lemma_global_registration_keeps_wf(old(self)@, T::spec_ty(), ExprView::LitBool(false));
            }
        }
        let handle = self.next_global_handle;
        self.next_global_handle = handle + 1;
        self.push(ShaderDecl::In(handle, T::ty()));
        Var::new(ScopedHandle::global(handle))
    }

    /// Registers an output under a fresh global index.
    pub fn output<T: ToType>(&mut self) -> (r: Var<T>)
        requires
            old(self)@.next_global_handle < u16::MAX,
        ensures
            r@ == ExprView::MutVar(ScopedHandle::Global(old(self)@.next_global_handle)),
            final(self)@ == old(self)@.with_output(T::spec_ty()),
            old(self)@.wf() ==> final(self)@.wf(),
    {
        proof {
            if old(self)@.wf() {
                lemma_global_registration_keeps_wf(old(self)@, T::spec_ty(), ExprView::LitBool(false));
            }
        }
        let handle = self.next_global_handle;
        self.next_global_handle = handle + 1;
        self.push(ShaderDecl::Out(handle, T::ty()));
        Var::new(ScopedHandle::global(handle))
    }
}

} // verus!
