//! An embedded language for writing GPU shaders.
//!
//! Host code builds a shader through typed expressions ([`Expr`]), a scope
//! builder ([`Scope`]) and a shader module ([`Shader`]); these record an untyped
//! intermediate representation ([`ErasedExpr`], [`ScopeInstr`], [`ShaderDecl`]),
//! which [`write_shader`] renders as source text of a C-like shading language.
//!
//! Every untyped value has a mathematical view (`ExprView`, `ScopeView`, ...);
//! the contracts of the builders say which view each call produces.

pub mod builtin;
pub mod env;
pub mod expr;
pub mod fun;
pub mod intrinsics;
pub mod laws;
pub mod ops;
pub mod scope;
pub mod shader;
pub mod typed;
pub mod types;
pub mod writer;

pub use builtin::{
    BuiltIn, FragmentBuiltIn, GeometryBuiltIn, TessCtrlBuiltIn, TessEvalBuiltIn, VertexBuiltIn,
};
pub use env::{
    FragmentShaderEnv, GeometryPerVertexIn, GeometryShaderEnv, TessControlPerVertexIn,
    TessControlPerVertexOut, TessCtrlShaderEnv, TessEvalShaderEnv, TessEvaluationPerVertexIn,
    VertexShaderEnv,
};
pub use expr::{
    BinOp, ErasedExpr, ErasedFunHandle, ExprView, ScopedHandle, Swizzle, SwizzleSelector,
};
pub use fun::{ErasedFun, FunDef, FunHandle, FunView, ToFun};
pub use intrinsics::{
    Bounded, Exponential, Floating, FloatingExt, Mix, Relative, Signed, Trigonometry,
};
pub use ops::{
    Arithmetic, ArithmeticScalar, FloatArithmetic, FloatScalar, Integral, Logical, LogicalScalar,
};
pub use scope::{
    ErasedReturn, ErasedScope, InstrView, IntoVar, ReturnView, Scope, ScopeInstr, ScopeView,
    ToReturn, When,
};
pub use shader::{DeclView, Shader, ShaderDecl, ShaderView};
pub use typed::{Expr, IntoExpr, Literal, Ordered, Swizzlable, Var};
pub use types::{Dim, Float, PrimType, ToPrimType, ToType, Type, TypeView, V2, V3, V4};
pub use writer::{write_decl, write_expr, write_instr, write_shader};
