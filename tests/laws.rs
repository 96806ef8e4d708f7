use shades::{
    BuiltIn, Dim, ErasedExpr, ErasedFunHandle, ErasedReturn, ErasedScope, Exponential, Expr,
    Float, FloatingExt, FragmentBuiltIn, FragmentShaderEnv, GeometryBuiltIn, GeometryShaderEnv,
    PrimType, Relative, Scope, ScopeInstr, ScopedHandle, Shader, ShaderDecl, Swizzlable, Swizzle,
    SwizzleSelector, TessCtrlBuiltIn, TessCtrlShaderEnv, TessEvalBuiltIn, TessEvalShaderEnv,
    ToType, Trigonometry, Type, V2, V3, V4, VertexShaderEnv,
};

fn float(x: f32) -> Float {
    Float::from_bits(x.to_bits())
}

fn lit_int(v: i32) -> Box<ErasedExpr> {
    Box::new(ErasedExpr::LitInt(v))
}

#[test]
fn literals_of_each_kind() {
    assert_eq!(Expr::from(-7i32).erased(), &ErasedExpr::LitInt(-7));
    assert_eq!(Expr::from(7u32).erased(), &ErasedExpr::LitUInt(7));
    assert_eq!(Expr::from(float(1.5)).erased(), &ErasedExpr::LitFloat(float(1.5)));
    assert_eq!(Expr::from(false).erased(), &ErasedExpr::LitBool(false));
    assert_eq!(Expr::from(V2::from([1u32, 2])).erased(), &ErasedExpr::LitUInt2([1, 2]));
    assert_eq!(
        Expr::from(V3::from([float(1.), float(2.), float(3.)])).erased(),
        &ErasedExpr::LitFloat3([float(1.), float(2.), float(3.)])
    );
    assert_eq!(
        Expr::from(V4::from([true, false, true, false])).erased(),
        &ErasedExpr::LitBool4([true, false, true, false])
    );
    assert_eq!(Expr::from(&5i32).erased(), &ErasedExpr::LitInt(5));
    assert_eq!(float(1.5).to_bits(), 1.5f32.to_bits());
}

#[test]
fn lifting_commutes_with_operators() {
    let a = Expr::from(6i32);
    assert_eq!((a.clone() + 2).erased(), (a.clone() + Expr::from(2)).erased());
    assert_eq!((a.clone() - 2).erased(), (a.clone() - Expr::from(2)).erased());
    assert_eq!((a.clone() * 2).erased(), (a.clone() * Expr::from(2)).erased());
    assert_eq!((a.clone() / 2).erased(), (a.clone() / Expr::from(2)).erased());
    assert_eq!((a.clone() << 2u32).erased(), (a.clone() << Expr::from(2u32)).erased());
    assert_eq!((a.clone() >> 2u32).erased(), (a.clone() >> Expr::from(2u32)).erased());

    let f = Expr::from(float(5.));
    assert_eq!((f.clone() % float(2.)).erased(), (f.clone() % Expr::from(float(2.))).erased());

    let b = Expr::from(true);
    assert_eq!((b.clone() | false).erased(), (b.clone() | Expr::from(false)).erased());
    assert_eq!((b.clone() & false).erased(), (b.clone() & Expr::from(false)).erased());
    assert_eq!((b.clone() ^ false).erased(), (b.clone() ^ Expr::from(false)).erased());

    let v = Expr::from(V3::from([float(1.), float(2.), float(3.)]));
    assert_eq!((v.clone() * float(2.)).erased(), (v.clone() * Expr::from(float(2.))).erased());
    assert_eq!(
        (v.clone() * float(2.)).erased(),
        &ErasedExpr::Mul(
            Box::new(ErasedExpr::LitFloat3([float(1.), float(2.), float(3.)])),
            Box::new(ErasedExpr::LitFloat(float(2.))),
        )
    );
    assert_eq!(
        (a.clone() << 3u32).erased(),
        &ErasedExpr::Shl(lit_int(6), Box::new(ErasedExpr::LitUInt(3)))
    );
}

#[test]
fn borrowing_does_not_change_the_tree() {
    let a = Expr::from(1i32);
    let b = Expr::from(2i32);
    let expected = ErasedExpr::Sub(lit_int(1), lit_int(2));
    assert_eq!((&a - &b).erased(), &expected);
    assert_eq!((&a - b.clone()).erased(), &expected);
    assert_eq!((a.clone() - &b).erased(), &expected);
    assert_eq!((a.clone() - b.clone()).erased(), &expected);
    assert_eq!((&a - 2).erased(), &expected);
    assert_eq!((-&a).erased(), (-a.clone()).erased());
    let t = Expr::from(true);
    assert_eq!((!&t).erased(), (!t.clone()).erased());
}

#[test]
fn var_declares_in_its_block_and_advances_the_counter() {
    let mut s = Scope::<()>::new(3);
    let _ = s.var(1i32);
    let v = s.var(Expr::from(V2::from([float(0.), float(1.)])));
    assert_eq!(v.erased(), &ErasedExpr::MutVar(ScopedHandle::fun_var(3, 1)));
    assert_eq!(s.erased().next_var, 2);
    assert_eq!(s.erased().id, 3);
    assert_eq!(
        s.erased().instructions[1],
        ScopeInstr::VarDecl {
            ty: Type { prim_ty: PrimType::Float(Dim::D2), array_dims: vec![] },
            handle: ScopedHandle::fun_var(3, 1),
            init_value: ErasedExpr::LitFloat2([float(0.), float(1.)]),
        }
    );
}

#[test]
fn if_chain_appends_if_else_if_else() {
    let mut s = Scope::<()>::new(2);
    s.loop_break();
    s.when(Expr::from(true), |s| s.abort())
        .or_else(Expr::from(false), |s| s.loop_continue())
        .or(|s| s.loop_break());
    let instrs = &s.erased().instructions;
    assert_eq!(instrs.len(), 4);
    let block = |instr: ScopeInstr| {
        let mut b = ErasedScope::new(3);
        b.instructions.push(instr);
        b
    };
    assert_eq!(instrs[0], ScopeInstr::Break);
    assert_eq!(
        instrs[1],
        ScopeInstr::If {
            condition: ErasedExpr::LitBool(true),
            scope: block(ScopeInstr::Return(ErasedReturn::Void)),
        }
    );
    assert_eq!(
        instrs[2],
        ScopeInstr::ElseIf { condition: ErasedExpr::LitBool(false), scope: block(ScopeInstr::Continue) }
    );
    assert_eq!(instrs[3], ScopeInstr::Else { scope: block(ScopeInstr::Break) });
}

#[test]
fn unless_negates_its_condition() {
    let mut s = Scope::<()>::new(0);
    s.unless(Expr::from(true), |_| ());
    assert_eq!(
        s.erased().instructions[0],
        ScopeInstr::If {
            condition: ErasedExpr::Not(Box::new(ErasedExpr::LitBool(true))),
            scope: ErasedScope::new(1),
        }
    );
}

#[test]
fn for_loop_block_starts_with_the_induction_variable() {
    let mut s = Scope::<()>::new(0);
    s.loop_for(
        5u32,
        |i| i.gt(0u32),
        |i| i - 1u32,
        |s, i| {
            let _ = s.var(i.clone());
        },
    );
    let i = ErasedExpr::MutVar(ScopedHandle::fun_var(1, 0));
    match &s.erased().instructions[0] {
        ScopeInstr::For { init_ty, init_handle, scope, condition, post_expr, .. } => {
            assert_eq!(*init_ty, u32::ty());
            assert_eq!(*init_handle, ScopedHandle::fun_var(1, 0));
            assert_eq!(*condition, ErasedExpr::Gt(Box::new(i.clone()), Box::new(ErasedExpr::LitUInt(0))));
            assert_eq!(*post_expr, ErasedExpr::Sub(Box::new(i.clone()), Box::new(ErasedExpr::LitUInt(1))));
            assert_eq!(scope.id, 1);
            assert_eq!(scope.next_var, 2);
            assert_eq!(scope.instructions.len(), 2);
            assert_eq!(
                scope.instructions[0],
                ScopeInstr::VarDecl {
                    ty: u32::ty(),
                    handle: ScopedHandle::fun_var(1, 0),
                    init_value: ErasedExpr::LitUInt(5),
                }
            );
            assert_eq!(
                scope.instructions[1],
                ScopeInstr::VarDecl { ty: u32::ty(), handle: ScopedHandle::fun_var(1, 1), init_value: i }
            );
        }
        _ => panic!("not a for loop"),
    }
}

#[test]
fn set_records_an_assignment() {
    let mut s = Scope::<()>::new(0);
    let v = s.var(1i32);
    s.set(&v, 4);
    s.set(v, Expr::from(5));
    assert_eq!(
        s.erased().instructions[1],
        ScopeInstr::MutateVar {
            var: ErasedExpr::MutVar(ScopedHandle::fun_var(0, 0)),
            expr: ErasedExpr::LitInt(4),
        }
    );
    assert_eq!(s.erased().instructions.len(), 3);
}

#[test]
fn shader_registration_order() {
    let mut shader = Shader::new();
    let i0 = shader.input::<V4<Float>>();
    let _i1 = shader.input::<i32>();
    let o0 = shader.output::<[Float; 4]>();
    let c0 = shader.constant(Expr::from(3u32));
    let f0 = shader.fun(|s: &mut Scope<()>| s.abort());
    let f1 = shader.fun(|_: &mut Scope<Expr<i32>>, a: Expr<i32>, b: Expr<i32>| a + b);
    let main = shader.main_fun(|_: &mut Scope<()>| ());

    assert_eq!(i0.erased(), &ErasedExpr::MutVar(ScopedHandle::global(0)));
    assert_eq!(o0.erased(), &ErasedExpr::MutVar(ScopedHandle::global(2)));
    assert_eq!(c0.erased(), &ErasedExpr::MutVar(ScopedHandle::global(3)));
    assert_eq!(f0.erased(), ErasedFunHandle::UserDefined(0));
    assert_eq!(f1.erased(), ErasedFunHandle::UserDefined(1));
    assert_eq!(main.erased(), ErasedFunHandle::Main);
    assert_eq!(shader.next_global_handle(), 4);
    assert_eq!(shader.next_fun_handle(), 2);

    let decls = shader.decls();
    assert_eq!(decls.len(), 7);
    assert_eq!(decls[0], ShaderDecl::In(0, V4::<Float>::ty()));
    assert_eq!(decls[1], ShaderDecl::In(1, i32::ty()));
    assert_eq!(
        decls[2],
        ShaderDecl::Out(2, Type { prim_ty: PrimType::Float(Dim::Scalar), array_dims: vec![4] })
    );
    assert_eq!(decls[3], ShaderDecl::Const(3, u32::ty(), ErasedExpr::LitUInt(3)));
    assert!(matches!(decls[4], ShaderDecl::FunDef(0, _)));
    match &decls[5] {
        ShaderDecl::FunDef(1, f) => {
            assert_eq!(f.args, vec![i32::ty(), i32::ty()]);
            assert_eq!(
                f.ret,
                ErasedReturn::Expr(
                    i32::ty(),
                    ErasedExpr::Add(
                        Box::new(ErasedExpr::MutVar(ScopedHandle::fun_arg(0))),
                        Box::new(ErasedExpr::MutVar(ScopedHandle::fun_arg(1))),
                    )
                )
            );
        }
        _ => panic!("not a function"),
    }
    assert!(matches!(decls[6], ShaderDecl::Main(_)));
}

#[test]
fn calls_pack_their_arguments() {
    let mut shader = Shader::new();
    let f = shader.fun(|_: &mut Scope<Expr<i32>>, a: Expr<i32>, _b: Expr<bool>| a);
    let g = shader.fun(|_: &mut Scope<Expr<u32>>| Expr::from(1u32));
    let h = shader.fun(|_: &mut Scope<Expr<u32>>, a: Expr<u32>| a);
    assert_eq!(
        f.call(Expr::from(4), Expr::from(true)).erased(),
        &ErasedExpr::FunCall(
            ErasedFunHandle::UserDefined(0),
            vec![ErasedExpr::LitInt(4), ErasedExpr::LitBool(true)],
        )
    );
    assert_eq!(g.call().erased(), &ErasedExpr::FunCall(ErasedFunHandle::UserDefined(1), vec![]));
    assert_eq!(
        h.call(Expr::from(2u32)).erased(),
        &ErasedExpr::FunCall(ErasedFunHandle::UserDefined(2), vec![ErasedExpr::LitUInt(2)])
    );
}

#[test]
fn fixed_array_lookup() {
    let a = Expr::from([7i32, 8, 9]);
    let e = a.at(2);
    assert_eq!(
        e.erased(),
        &ErasedExpr::ArrayLookup { object: Box::new(a.erased().clone()), index: lit_int(2) }
    );
    let i = Expr::from(1i32) + 1;
    assert_eq!(a.at(&i).erased(), &ErasedExpr::ArrayLookup {
        object: Box::new(a.erased().clone()),
        index: Box::new(ErasedExpr::Add(lit_int(1), lit_int(1))),
    });
}

#[test]
fn swizzles_of_every_length() {
    let (w, x, y, z) = (SwizzleSelector::W, SwizzleSelector::X, SwizzleSelector::Y, SwizzleSelector::Z);
    let v = Expr::from(V4::from([1i32, 2, 3, 4]));
    let base = || Box::new(ErasedExpr::LitInt4([1, 2, 3, 4]));
    assert_eq!(v.swizzle(w).erased(), &ErasedExpr::Swizzle(base(), Swizzle::D1(w)));
    assert_eq!(v.swizzle([y, x]).erased(), &ErasedExpr::Swizzle(base(), Swizzle::D2(y, x)));
    assert_eq!(v.swizzle([z, z, x]).erased(), &ErasedExpr::Swizzle(base(), Swizzle::D3(z, z, x)));
    assert_eq!(
        v.swizzle([w, z, y, x]).erased(),
        &ErasedExpr::Swizzle(base(), Swizzle::D4(w, z, y, x))
    );
}

#[test]
fn comparisons_and_logic() {
    let a = Expr::from(1u32);
    assert_eq!(a.neq(2u32).erased(), &ErasedExpr::Neq(Box::new(ErasedExpr::LitUInt(1)), Box::new(ErasedExpr::LitUInt(2))));
    assert_eq!(a.lte(2u32).erased(), &ErasedExpr::Lte(Box::new(ErasedExpr::LitUInt(1)), Box::new(ErasedExpr::LitUInt(2))));
    assert_eq!(a.gte(&a).erased(), &ErasedExpr::Gte(Box::new(ErasedExpr::LitUInt(1)), Box::new(ErasedExpr::LitUInt(1))));
    let t = Expr::from(true);
    assert_eq!(
        t.and(false).or(true).erased(),
        &ErasedExpr::Or(
            Box::new(ErasedExpr::And(
                Box::new(ErasedExpr::LitBool(true)),
                Box::new(ErasedExpr::LitBool(false)),
            )),
            Box::new(ErasedExpr::LitBool(true)),
        )
    );
    assert_eq!(t.xor(true).erased(), &ErasedExpr::Xor(Box::new(ErasedExpr::LitBool(true)), Box::new(ErasedExpr::LitBool(true))));
}

#[test]
fn intrinsics_lower_to_named_calls() {
    let x = Expr::from(float(0.5));
    let arg = || ErasedExpr::LitFloat(float(0.5));
    assert_eq!(x.sin().erased(), &ErasedExpr::FunCall(ErasedFunHandle::Sin, vec![arg()]));
    assert_eq!(x.isqrt().erased(), &ErasedExpr::FunCall(ErasedFunHandle::InverseSqrt, vec![arg()]));
    assert_eq!(
        x.pow(float(2.)).erased(),
        &ErasedExpr::FunCall(ErasedFunHandle::Pow, vec![arg(), ErasedExpr::LitFloat(float(2.))])
    );
    assert_eq!(x.is_nan().erased(), &ErasedExpr::FunCall(ErasedFunHandle::IsNan, vec![arg()]));
    assert_eq!(Expr::from(-3i32).abs().erased(), &ErasedExpr::FunCall(ErasedFunHandle::Abs, vec![ErasedExpr::LitInt(-3)]));
}

#[test]
fn stage_environments_refer_to_their_built_ins() {
    let te = TessEvalShaderEnv::new();
    assert_eq!(
        te.cull_distance.erased(),
        &ErasedExpr::MutVar(ScopedHandle::BuiltIn(BuiltIn::TessEval(TessEvalBuiltIn::CullDistance)))
    );
    assert_eq!(
        te.tess_coord.erased(),
        &ErasedExpr::ImmutBuiltIn(BuiltIn::TessEval(TessEvalBuiltIn::TessCoord))
    );
    let tc = TessCtrlShaderEnv::new();
    let first = tc.input.at(0);
    assert_eq!(
        first.position().erased(),
        &ErasedExpr::Field {
            object: Box::new(ErasedExpr::ArrayLookup {
                object: Box::new(ErasedExpr::ImmutBuiltIn(BuiltIn::TessCtrl(TessCtrlBuiltIn::In))),
                index: lit_int(0),
            }),
            field: Box::new(ErasedExpr::ImmutBuiltIn(BuiltIn::TessCtrl(TessCtrlBuiltIn::Position))),
        }
    );
    let out = tc.output.at(1);
    assert!(matches!(out.to_expr().cull_distance().erased(), ErasedExpr::Field { .. }));
    let g = GeometryShaderEnv::new();
    assert_eq!(
        g.layer.erased(),
        &ErasedExpr::MutVar(ScopedHandle::BuiltIn(BuiltIn::Geometry(GeometryBuiltIn::Layer)))
    );
    let f = FragmentShaderEnv::new();
    assert_eq!(
        f.frag_coord.erased(),
        &ErasedExpr::MutVar(ScopedHandle::BuiltIn(BuiltIn::Fragment(FragmentBuiltIn::FragCoord)))
    );
}

#[test]
fn stage_shaders_run_their_builder() {
    let shader = Shader::new_vertex_shader(|s, env: VertexShaderEnv| {
        let _ = s.main_fun(|b: &mut Scope<()>| {
            b.set(&env.point_size, float(1.));
        });
    });
    assert_eq!(shader.decls().len(), 1);
    match &shader.decls()[0] {
        ShaderDecl::Main(f) => assert_eq!(f.scope.instructions.len(), 1),
        _ => panic!("not the entry point"),
    }
    let shader = Shader::new_fragment_shader(|s, _| {
        let _ = s.output::<V4<Float>>();
    });
    assert_eq!(shader.next_global_handle(), 1);
}
