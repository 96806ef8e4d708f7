use shades::{
    write_expr, write_instr, write_shader, Expr, Float, Scope, Shader, Swizzlable, SwizzleSelector,
    Trigonometry, V2, V3, V4, VertexShaderEnv,
};

fn float(x: f32) -> Float {
    Float::from_bits(x.to_bits())
}

fn text<T>(e: &Expr<T>) -> String {
    let mut out = String::new();
    write_expr(&mut out, e.erased());
    out
}

#[test]
fn literals_print_in_source_form() {
    assert_eq!(text(&Expr::from(42i32)), "42");
    assert_eq!(text(&Expr::from(-42i32)), "-42");
    assert_eq!(text(&Expr::from(i32::MIN)), "-2147483648");
    assert_eq!(text(&Expr::from(7u32)), "7u");
    assert_eq!(text(&Expr::from(true)), "true");
    assert_eq!(text(&Expr::from(float(1.0))), "uintBitsToFloat(1065353216u)");
    assert_eq!(text(&Expr::from(V2::from([1, -2]))), "ivec2(1, -2)");
    assert_eq!(text(&Expr::from(V3::from([false, true, false]))), "bvec3(false, true, false)");
    assert_eq!(text(&Expr::from(V4::from([1u32, 2, 3, 4]))), "uvec4(1u, 2u, 3u, 4u)");
    assert_eq!(text(&Expr::from([[1, 2], [3, 4]])), "int[2][2](int[2](1, 2), int[2](3, 4))");
}

#[test]
fn operators_print_with_needed_parentheses() {
    let a = Expr::from(1i32);
    let b = Expr::from(2i32);
    let c = Expr::from(3i32);
    assert_eq!(text(&(&a + &b * &c)), "1 + 2 * 3");
    assert_eq!(text(&((&a + &b) * &c)), "(1 + 2) * 3");
    assert_eq!(text(&(&a - (&b - &c))), "1 - (2 - 3)");
    assert_eq!(text(&((&a - &b) - &c)), "1 - 2 - 3");
    assert_eq!(text(&-(&a + &b)), "-(1 + 2)");
    assert_eq!(text(&-Expr::from(-4i32)), "-(-4)");
    assert_eq!(text(&(&a << 2u32)), "1 << 2u");
    let t = Expr::from(true);
    assert_eq!(text(&!a.lt(&b).and(&t)), "!(1 < 2 && true)");
    assert_eq!(text(&a.eq(&b).xor(b.gte(&c))), "1 == 2 ^^ 2 >= 3");
}

#[test]
fn postfix_forms_print_after_their_base() {
    let v = Expr::from(V4::from([float(0.), float(0.), float(0.), float(0.)]));
    let sum = &v + &v;
    assert_eq!(
        text(&sum.swizzle([SwizzleSelector::X, SwizzleSelector::W])),
        "(vec4(uintBitsToFloat(0u), uintBitsToFloat(0u), uintBitsToFloat(0u), uintBitsToFloat(0u)) + vec4(uintBitsToFloat(0u), uintBitsToFloat(0u), uintBitsToFloat(0u), uintBitsToFloat(0u))).xw"
    );
    let env = VertexShaderEnv::new();
    assert_eq!(text(&env.clip_distance.at(env.vertex_id.clone() + 1)), "gl_ClipDistance[gl_VertexID + 1]");
    let x = Expr::from(float(0.5));
    assert_eq!(text(&x.sin()), "sin(uintBitsToFloat(1056964608u))");
}

#[test]
fn statements_print_one_per_line() {
    let mut s = Scope::<Expr<i32>>::new(0);
    let x = s.var(1);
    s.when(x.lt(10), |s| s.set(&x, 10))
        .or_else(x.eq(20), |s| s.loop_break())
        .or(|s| s.leave(Expr::from(0)));
    s.loop_for(0, |i| i.lt(3), |i| i + 1, |s, i| s.set(&x, x.to_expr() + i));
    s.loop_while(x.gt(0), |s| s.set(&x, x.to_expr() - 1));
    let mut out = String::new();
    for instr in &s.erased().instructions {
        write_instr(&mut out, instr);
    }
    assert_eq!(
        out,
        "int v0_0 = 1;\n\
         if (v0_0 < 10) {\nv0_0 = 10;\n}\n\
         else if (v0_0 == 20) {\nbreak;\n}\n\
         else {\nreturn 0;\n}\n\
         for (int v1_0 = 0; v1_0 < 3; v1_0 = v1_0 + 1) {\nv0_0 = v0_0 + v1_0;\n}\n\
         while (v0_0 > 0) {\nv0_0 = v0_0 - 1;\n}\n"
    );
}

#[test]
fn shaders_print_their_declarations_in_order() {
    let shader = Shader::new_vertex_shader(|s, env| {
        let input = s.input::<V3<Float>>();
        let _ = s.output::<[i32; 2]>();
        let k = s.constant(Expr::from(3u32));
        let double = s.fun(|_: &mut Scope<Expr<i32>>, a: Expr<i32>, b: Expr<i32>| a * 2 + b);
        let _ = s.main_fun(|m: &mut Scope<()>| {
            let y = m.var(double.call(env.vertex_id.clone(), Expr::from(1)));
            m.set(&env.point_size, float(2.0));
            m.set(&input, input.to_expr());
            let _ = (&y, &k);
        });
    });
    assert_eq!(
        write_shader(&shader),
        "in vec3 g_0;\n\
         out int g_1[2];\n\
         const uint g_2 = 3u;\n\
         int fun_0(int arg_0, int arg_1) {\nreturn arg_0 * 2 + arg_1;\n}\n\
         void main() {\nint v0_0 = fun_0(gl_VertexID, 1);\ngl_PointSize = uintBitsToFloat(1073741824u);\ng_0 = g_0;\n}\n"
    );
}
