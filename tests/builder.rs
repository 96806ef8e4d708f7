use shades::{
    Bounded, BuiltIn, Dim, ErasedExpr, ErasedFunHandle, ErasedReturn, ErasedScope, Expr, Float,
    PrimType, Scope, ScopeInstr, ScopedHandle, Shader, ShaderDecl, Swizzlable, Swizzle,
    SwizzleSelector, ToType, Type, V2, V3, V4, VertexBuiltIn, VertexShaderEnv,
};

fn float(x: f32) -> Float {
    Float::from_bits(x.to_bits())
}

fn scalar(prim_ty: PrimType) -> Type {
    Type { prim_ty, array_dims: Vec::new() }
}

#[test]
fn expr_lit() {
    assert_eq!(Expr::from(true).erased(), &ErasedExpr::LitBool(true));
    assert_eq!(Expr::from(V2::from([1, 2])).erased(), &ErasedExpr::LitInt2([1, 2]));
}

#[test]
fn expr_unary() {
    let mut scope = Scope::<()>::new(0);

    let a = !Expr::from(true);
    let b = -Expr::from(3i32);
    let c = scope.var(17);

    assert_eq!(a.erased(), &ErasedExpr::Not(Box::new(ErasedExpr::LitBool(true))));
    assert_eq!(b.erased(), &ErasedExpr::Neg(Box::new(ErasedExpr::LitInt(3))));
    assert_eq!(c.erased(), &ErasedExpr::MutVar(ScopedHandle::fun_var(0, 0)));
}

#[test]
fn expr_binary() {
    let a = Expr::from(1i32) + Expr::from(2);
    let b = Expr::from(1i32) + 2;

    assert_eq!(a.erased(), b.erased());
    assert_eq!(
        a.erased(),
        &ErasedExpr::Add(Box::new(ErasedExpr::LitInt(1)), Box::new(ErasedExpr::LitInt(2)))
    );
    assert_eq!(
        b.erased(),
        &ErasedExpr::Add(Box::new(ErasedExpr::LitInt(1)), Box::new(ErasedExpr::LitInt(2)))
    );

    let a = Expr::from(1i32) - Expr::from(2);
    let b = Expr::from(1i32) - 2;

    assert_eq!(a.erased(), b.erased());
    assert_eq!(
        a.erased(),
        &ErasedExpr::Sub(Box::new(ErasedExpr::LitInt(1)), Box::new(ErasedExpr::LitInt(2)))
    );
    assert_eq!(
        b.erased(),
        &ErasedExpr::Sub(Box::new(ErasedExpr::LitInt(1)), Box::new(ErasedExpr::LitInt(2)))
    );

    let a = Expr::from(1i32) * Expr::from(2);
    let b = Expr::from(1i32) * 2;

    assert_eq!(a.erased(), b.erased());
    assert_eq!(
        a.erased(),
        &ErasedExpr::Mul(Box::new(ErasedExpr::LitInt(1)), Box::new(ErasedExpr::LitInt(2)))
    );
    assert_eq!(
        b.erased(),
        &ErasedExpr::Mul(Box::new(ErasedExpr::LitInt(1)), Box::new(ErasedExpr::LitInt(2)))
    );

    let a = Expr::from(1i32) / Expr::from(2);
    let b = Expr::from(1i32) / 2;

    assert_eq!(a.erased(), b.erased());
    assert_eq!(
        a.erased(),
        &ErasedExpr::Div(Box::new(ErasedExpr::LitInt(1)), Box::new(ErasedExpr::LitInt(2)))
    );
    assert_eq!(
        b.erased(),
        &ErasedExpr::Div(Box::new(ErasedExpr::LitInt(1)), Box::new(ErasedExpr::LitInt(2)))
    );
}

#[test]
fn expr_ref_inference() {
    let a = Expr::from(1i32);
    let b = a.clone() + 1;
    let c = a + 1;

    assert_eq!(b.erased(), c.erased());
}

#[test]
fn expr_var() {
    let mut scope = Scope::<()>::new(0);

    let x = scope.var(0);
    let y = scope.var(1u32);
    let z = scope.var(Expr::from(V3::from([false, true, false])));

    assert_eq!(x.erased(), &ErasedExpr::MutVar(ScopedHandle::fun_var(0, 0)));
    assert_eq!(y.erased(), &ErasedExpr::MutVar(ScopedHandle::fun_var(0, 1)));
    assert_eq!(z.erased(), &ErasedExpr::MutVar(ScopedHandle::fun_var(0, 2)));
    assert_eq!(scope.erased().instructions.len(), 3);
    assert_eq!(
        scope.erased().instructions[0],
        ScopeInstr::VarDecl {
            ty: scalar(PrimType::Int(Dim::Scalar)),
            handle: ScopedHandle::fun_var(0, 0),
            init_value: ErasedExpr::LitInt(0),
        }
    );
    assert_eq!(
        scope.erased().instructions[1],
        ScopeInstr::VarDecl {
            ty: scalar(PrimType::UInt(Dim::Scalar)),
            handle: ScopedHandle::fun_var(0, 1),
            init_value: ErasedExpr::LitUInt(1),
        }
    );
    assert_eq!(
        scope.erased().instructions[2],
        ScopeInstr::VarDecl {
            ty: scalar(PrimType::Bool(Dim::D3)),
            handle: ScopedHandle::fun_var(0, 2),
            init_value: ErasedExpr::LitBool3([false, true, false]),
        }
    );
}

#[test]
fn min_max_clamp() {
    let a = Expr::from(1i32);
    let b = Expr::from(2);
    let c = Expr::from(3);

    assert_eq!(
        a.min(&b).erased(),
        &ErasedExpr::FunCall(
            ErasedFunHandle::Min,
            vec![ErasedExpr::LitInt(1), ErasedExpr::LitInt(2)],
        )
    );

    assert_eq!(
        a.max(&b).erased(),
        &ErasedExpr::FunCall(
            ErasedFunHandle::Max,
            vec![ErasedExpr::LitInt(1), ErasedExpr::LitInt(2)],
        )
    );

    assert_eq!(
        a.clamp(b, c).erased(),
        &ErasedExpr::FunCall(
            ErasedFunHandle::Clamp,
            vec![ErasedExpr::LitInt(1), ErasedExpr::LitInt(2), ErasedExpr::LitInt(3)],
        )
    );
}

#[test]
fn fun0() {
    let mut shader = Shader::new();
    let fun = shader.fun(|s: &mut Scope<()>| {
        let _x = s.var(3);
    });

    assert_eq!(fun.erased(), ErasedFunHandle::UserDefined(0));

    match shader.decls()[0] {
        ShaderDecl::FunDef(0, ref fun) => {
            assert_eq!(fun.ret, ErasedReturn::Void);
            assert_eq!(fun.args, vec![]);
            assert_eq!(fun.scope.instructions.len(), 1);
            assert_eq!(
                fun.scope.instructions[0],
                ScopeInstr::VarDecl {
                    ty: scalar(PrimType::Int(Dim::Scalar)),
                    handle: ScopedHandle::fun_var(0, 0),
                    init_value: ErasedExpr::LitInt(3),
                }
            )
        }
        _ => panic!("wrong type"),
    }
}

#[test]
fn fun1() {
    let mut shader = Shader::new();
    let fun = shader.fun(|f: &mut Scope<Expr<i32>>, _arg: Expr<i32>| {
        let x = f.var(Expr::from(3i32));
        x.into()
    });

    assert_eq!(fun.erased(), ErasedFunHandle::UserDefined(0));

    match shader.decls()[0] {
        ShaderDecl::FunDef(0, ref fun) => {
            assert_eq!(
                fun.ret,
                ErasedReturn::Expr(i32::ty(), ErasedExpr::MutVar(ScopedHandle::fun_var(0, 0)))
            );
            assert_eq!(fun.args, vec![scalar(PrimType::Int(Dim::Scalar))]);
            assert_eq!(fun.scope.instructions.len(), 1);
            assert_eq!(
                fun.scope.instructions[0],
                ScopeInstr::VarDecl {
                    ty: scalar(PrimType::Int(Dim::Scalar)),
                    handle: ScopedHandle::fun_var(0, 0),
                    init_value: ErasedExpr::LitInt(3),
                }
            )
        }
        _ => panic!("wrong type"),
    }
}

#[test]
fn swizzling() {
    let mut scope = Scope::<()>::new(0);
    let foo = scope.var(Expr::from(V2::from([1, 2])));
    let foo_xy = foo.swizzle([SwizzleSelector::X, SwizzleSelector::Y]);
    let foo_xx = foo.swizzle([SwizzleSelector::X, SwizzleSelector::X]);

    assert_eq!(
        foo_xy.erased(),
        &ErasedExpr::Swizzle(
            Box::new(ErasedExpr::MutVar(ScopedHandle::fun_var(0, 0))),
            Swizzle::D2(SwizzleSelector::X, SwizzleSelector::Y),
        )
    );

    assert_eq!(
        foo_xx.erased(),
        &ErasedExpr::Swizzle(
            Box::new(ErasedExpr::MutVar(ScopedHandle::fun_var(0, 0))),
            Swizzle::D2(SwizzleSelector::X, SwizzleSelector::X),
        )
    );
}

#[test]
fn when() {
    let mut s = Scope::<Expr<V4<Float>>>::new(0);

    let x = s.var(1);
    s.when(x.eq(Expr::from(2)), |s| {
        let y = s.var(Expr::from(V4::from([float(1.), float(2.), float(3.), float(4.)])));
        s.leave(y.into());
    })
    .or_else(x.eq(Expr::from(0)), |s| {
        s.leave(Expr::from(V4::from([float(0.), float(0.), float(0.), float(0.)])))
    })
    .or(|_| ());

    assert_eq!(s.erased().instructions.len(), 4);

    assert_eq!(
        s.erased().instructions[0],
        ScopeInstr::VarDecl {
            ty: scalar(PrimType::Int(Dim::Scalar)),
            handle: ScopedHandle::fun_var(0, 0),
            init_value: ErasedExpr::LitInt(1),
        }
    );

    // if
    let mut scope = ErasedScope::new(1);
    scope.next_var = 1;
    scope.instructions.push(ScopeInstr::VarDecl {
        ty: scalar(PrimType::Float(Dim::D4)),
        handle: ScopedHandle::fun_var(1, 0),
        init_value: ErasedExpr::LitFloat4([float(1.), float(2.), float(3.), float(4.)]),
    });
    scope.instructions.push(ScopeInstr::Return(ErasedReturn::Expr(
        V4::<Float>::ty(),
        ErasedExpr::MutVar(ScopedHandle::fun_var(1, 0)),
    )));

    assert_eq!(
        s.erased().instructions[1],
        ScopeInstr::If {
            condition: ErasedExpr::Eq(
                Box::new(ErasedExpr::MutVar(ScopedHandle::fun_var(0, 0))),
                Box::new(ErasedExpr::LitInt(2)),
            ),
            scope,
        }
    );

    // else if
    let mut scope = ErasedScope::new(1);
    scope.instructions.push(ScopeInstr::Return(ErasedReturn::Expr(
        V4::<Float>::ty(),
        ErasedExpr::LitFloat4([float(0.), float(0.), float(0.), float(0.)]),
    )));

    assert_eq!(
        s.erased().instructions[2],
        ScopeInstr::ElseIf {
            condition: ErasedExpr::Eq(
                Box::new(ErasedExpr::MutVar(ScopedHandle::fun_var(0, 0))),
                Box::new(ErasedExpr::LitInt(0)),
            ),
            scope,
        }
    );

    // else
    assert_eq!(s.erased().instructions[3], ScopeInstr::Else { scope: ErasedScope::new(1) });
}

#[test]
fn for_loop() {
    let mut scope: Scope<Expr<i32>> = Scope::new(0);

    scope.loop_for(
        0,
        |a| a.lt(Expr::from(10)),
        |a| a + 1,
        |s, a| {
            s.leave(a.clone());
        },
    );

    assert_eq!(scope.erased().instructions.len(), 1);

    let mut loop_scope = ErasedScope::new(1);
    loop_scope.next_var = 1;
    loop_scope.instructions.push(ScopeInstr::VarDecl {
        ty: scalar(PrimType::Int(Dim::Scalar)),
        handle: ScopedHandle::fun_var(1, 0),
        init_value: ErasedExpr::LitInt(0),
    });
    loop_scope.instructions.push(ScopeInstr::Return(ErasedReturn::Expr(
        i32::ty(),
        ErasedExpr::MutVar(ScopedHandle::fun_var(1, 0)),
    )));

    assert_eq!(
        scope.erased().instructions[0],
        ScopeInstr::For {
            init_ty: i32::ty(),
            init_handle: ScopedHandle::fun_var(1, 0),
            init_expr: ErasedExpr::MutVar(ScopedHandle::fun_var(1, 0)),
            condition: ErasedExpr::Lt(
                Box::new(ErasedExpr::MutVar(ScopedHandle::fun_var(1, 0))),
                Box::new(ErasedExpr::LitInt(10)),
            ),
            post_expr: ErasedExpr::Add(
                Box::new(ErasedExpr::MutVar(ScopedHandle::fun_var(1, 0))),
                Box::new(ErasedExpr::LitInt(1)),
            ),
            scope: loop_scope,
        }
    );
}

#[test]
fn while_loop() {
    let mut scope: Scope<Expr<i32>> = Scope::new(0);

    scope.loop_while(Expr::from(1).lt(Expr::from(2)), Scope::loop_continue);

    let mut loop_scope = ErasedScope::new(1);
    loop_scope.instructions.push(ScopeInstr::Continue);

    assert_eq!(scope.erased().instructions.len(), 1);
    assert_eq!(
        scope.erased().instructions[0],
        ScopeInstr::While {
            condition: ErasedExpr::Lt(
                Box::new(ErasedExpr::LitInt(1)),
                Box::new(ErasedExpr::LitInt(2)),
            ),
            scope: loop_scope,
        }
    );
}

#[test]
fn vertex_id_commutative() {
    let vertex = VertexShaderEnv::new();

    let x = Expr::from(1);
    let _ = &vertex.vertex_id + &x;
    let _ = x + vertex.vertex_id;
}

#[test]
fn array_lookup() {
    let vertex = VertexShaderEnv::new();
    let clip_dist_expr = vertex.clip_distance.at(1);

    assert_eq!(
        clip_dist_expr.erased(),
        &ErasedExpr::ArrayLookup {
            object: Box::new(vertex.clip_distance.erased().clone()),
            index: Box::new(ErasedExpr::LitInt(1)),
        }
    );
    assert_eq!(
        vertex.clip_distance.erased(),
        &ErasedExpr::MutVar(ScopedHandle::BuiltIn(BuiltIn::Vertex(VertexBuiltIn::ClipDistance)))
    );
}

#[test]
fn array_creation() {
    let _ = Expr::from([1, 2, 3]);
    let _ = Expr::from(&[1, 2, 3]);
    let two_d = Expr::from([[1, 2], [3, 4]]);

    assert_eq!(
        two_d.erased(),
        &ErasedExpr::Array(
            <[[i32; 2]; 2] as ToType>::ty(),
            vec![
                ErasedExpr::Array(
                    <[i32; 2] as ToType>::ty(),
                    vec![ErasedExpr::LitInt(1), ErasedExpr::LitInt(2)]
                ),
                ErasedExpr::Array(
                    <[i32; 2] as ToType>::ty(),
                    vec![ErasedExpr::LitInt(3), ErasedExpr::LitInt(4)]
                )
            ]
        )
    );
    assert_eq!(
        <[[i32; 2]; 2] as ToType>::ty(),
        Type { prim_ty: PrimType::Int(Dim::Scalar), array_dims: vec![2, 2] }
    );
}
