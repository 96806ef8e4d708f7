//! The untyped expression tree, its mathematical view, and the handles it refers to.

use vstd::prelude::*;

use crate::builtin::BuiltIn;
use crate::types::{Float, Type, TypeView};

verus! {

/// One component of a vector.
#[derive(Clone, Copy, Debug, Eq, PartialEq)]
pub enum SwizzleSelector {
    X,
    Y,
    Z,
    W,
}

/// A selection of one to four components of a vector, in order, repetitions allowed.
#[derive(Clone, Copy, Debug, Eq, PartialEq)]
pub enum Swizzle {
    D1(SwizzleSelector),
    D2(SwizzleSelector, SwizzleSelector),
    D3(SwizzleSelector, SwizzleSelector, SwizzleSelector),
    D4(SwizzleSelector, SwizzleSelector, SwizzleSelector, SwizzleSelector),
}

/// What a variable reference designates.
#[derive(Clone, Copy, Debug, Eq, Hash, Ord, PartialEq, PartialOrd)]
pub enum ScopedHandle {
    /// A slot defined by the shader stage.
    BuiltIn(BuiltIn),
    /// An index into the shader's top-level declarations.
    Global(u16),
    /// An argument of the enclosing function, by position.
    FunArg(u16),
    /// A local introduced in the sub-scope `subscope`.
    FunVar { subscope: u16, handle: u16 },
}

impl ScopedHandle {
    pub fn builtin(b: BuiltIn) -> (r: Self)
        ensures
            r == ScopedHandle::BuiltIn(b),
    {
        ScopedHandle::BuiltIn(b)
    }

    pub fn global(handle: u16) -> (r: Self)
        ensures
            r == ScopedHandle::Global(handle),
    {
        ScopedHandle::Global(handle)
    }

    pub fn fun_arg(handle: u16) -> (r: Self)
        ensures
            r == ScopedHandle::FunArg(handle),
    {
        ScopedHandle::FunArg(handle)
    }

    pub fn fun_var(subscope: u16, handle: u16) -> (r: Self)
        ensures
            r == (ScopedHandle::FunVar { subscope, handle }),
    {
        ScopedHandle::FunVar { subscope, handle }
    }
}

/// The function a call refers to: the entry point, an intrinsic, or a user-defined function.
#[derive(Clone, Copy, Debug, Eq, PartialEq)]
pub enum ErasedFunHandle {
    Main,
    Radians,
    Degrees,
    Sin,
    Cos,
    Tan,
    ASin,
    ACos,
    ATan,
    SinH,
    CosH,
    TanH,
    ASinH,
    ACosH,
    ATanH,
    Pow,
    Exp,
    Exp2,
    Log,
    Log2,
    Sqrt,
    InverseSqrt,
    Abs,
    Sign,
    Floor,
    Trunc,
    Round,
    RoundEven,
    Ceil,
    Fract,
    Min,
    Max,
    Clamp,
    Mix,
    Step,
    SmoothStep,
    IsNan,
    IsInf,
    FloatBitsToInt,
    IntBitsToFloat,
    UIntBitsToFloat,
    FMA,
    Frexp,
    Ldexp,
    PackUnorm2x16,
    PackSnorm2x16,
    PackUnorm4x8,
    PackSnorm4x8,
    UnpackUnorm2x16,
    UnpackSnorm2x16,
    UnpackUnorm4x8,
    UnpackSnorm4x8,
    PackHalf2x16,
    UnpackHalf2x16,
    Length,
    Distance,
    Dot,
    Cross,
    Normalize,
    FaceForward,
    Reflect,
    Refract,
    VLt,
    VLte,
    VGt,
    VGte,
    VEq,
    VNeq,
    VAny,
    VAll,
    VNot,
    UAddCarry,
    USubBorrow,
    UMulExtended,
    IMulExtended,
    BitfieldExtract,
    BitfieldInsert,
    BitfieldReverse,
    BitCount,
    FindLSB,
    FindMSB,
    EmitStreamVertex,
    EndStreamPrimitive,
    EmitVertex,
    EndPrimitive,
    DFDX,
    DFDY,
    DFDXFine,
    DFDYFine,
    DFDXCoarse,
    DFDYCoarse,
    FWidth,
    FWidthFine,
    FWidthCoarse,
    InterpolateAtCentroid,
    InterpolateAtSample,
    InterpolateAtOffset,
    Barrier,
    MemoryBarrier,
    MemoryBarrierAtomic,
    MemoryBarrierBuffer,
    MemoryBarrierShared,
    MemoryBarrierImage,
    GroupMemoryBarrier,
    AnyInvocation,
    AllInvocations,
    AllInvocationsEqual,
    UserDefined(u16),
}

/// A binary operator of the expression tree.
#[derive(Clone, Copy, Debug, Eq, PartialEq)]
pub enum BinOp {
    And,
    Or,
    Xor,
    BitOr,
    BitAnd,
    BitXor,
    Add,
    Sub,
    Mul,
    Div,
    Rem,
    Shl,
    Shr,
    Eq,
    Neq,
    Lt,
    Lte,
    Gt,
    Gte,
}

/// An untyped expression. Children are owned: cloning is a deep copy.
#[derive(Debug, PartialEq)]
pub enum ErasedExpr {
    LitInt(i32),
    LitUInt(u32),
    LitFloat(Float),
    LitBool(bool),
    LitInt2([i32; 2]),
    LitUInt2([u32; 2]),
    LitFloat2([Float; 2]),
    LitBool2([bool; 2]),
    LitInt3([i32; 3]),
    LitUInt3([u32; 3]),
    LitFloat3([Float; 3]),
    LitBool3([bool; 3]),
    LitInt4([i32; 4]),
    LitUInt4([u32; 4]),
    LitFloat4([Float; 4]),
    LitBool4([bool; 4]),
    Array(Type, Vec<ErasedExpr>),
    MutVar(ScopedHandle),
    ImmutBuiltIn(BuiltIn),
    Not(Box<ErasedExpr>),
    Neg(Box<ErasedExpr>),
    And(Box<ErasedExpr>, Box<ErasedExpr>),
    Or(Box<ErasedExpr>, Box<ErasedExpr>),
    Xor(Box<ErasedExpr>, Box<ErasedExpr>),
    BitOr(Box<ErasedExpr>, Box<ErasedExpr>),
    BitAnd(Box<ErasedExpr>, Box<ErasedExpr>),
    BitXor(Box<ErasedExpr>, Box<ErasedExpr>),
    Add(Box<ErasedExpr>, Box<ErasedExpr>),
    Sub(Box<ErasedExpr>, Box<ErasedExpr>),
    Mul(Box<ErasedExpr>, Box<ErasedExpr>),
    Div(Box<ErasedExpr>, Box<ErasedExpr>),
    Rem(Box<ErasedExpr>, Box<ErasedExpr>),
    Shl(Box<ErasedExpr>, Box<ErasedExpr>),
    Shr(Box<ErasedExpr>, Box<ErasedExpr>),
    Eq(Box<ErasedExpr>, Box<ErasedExpr>),
    Neq(Box<ErasedExpr>, Box<ErasedExpr>),
    Lt(Box<ErasedExpr>, Box<ErasedExpr>),
    Lte(Box<ErasedExpr>, Box<ErasedExpr>),
    Gt(Box<ErasedExpr>, Box<ErasedExpr>),
    Gte(Box<ErasedExpr>, Box<ErasedExpr>),
    FunCall(ErasedFunHandle, Vec<ErasedExpr>),
    Swizzle(Box<ErasedExpr>, Swizzle),
    Field { object: Box<ErasedExpr>, field: Box<ErasedExpr> },
    ArrayLookup { object: Box<ErasedExpr>, index: Box<ErasedExpr> },
}

/// The mathematical value of an [`ErasedExpr`]: the same tree, with sequences for vectors.
pub enum ExprView {
    LitInt(i32),
    LitUInt(u32),
    LitFloat(Float),
    LitBool(bool),
    LitInt2([i32; 2]),
    LitUInt2([u32; 2]),
    LitFloat2([Float; 2]),
    LitBool2([bool; 2]),
    LitInt3([i32; 3]),
    LitUInt3([u32; 3]),
    LitFloat3([Float; 3]),
    LitBool3([bool; 3]),
    LitInt4([i32; 4]),
    LitUInt4([u32; 4]),
    LitFloat4([Float; 4]),
    LitBool4([bool; 4]),
    Array(TypeView, Seq<ExprView>),
    MutVar(ScopedHandle),
    ImmutBuiltIn(BuiltIn),
    Not(Box<ExprView>),
    Neg(Box<ExprView>),
    And(Box<ExprView>, Box<ExprView>),
    Or(Box<ExprView>, Box<ExprView>),
    Xor(Box<ExprView>, Box<ExprView>),
    BitOr(Box<ExprView>, Box<ExprView>),
    BitAnd(Box<ExprView>, Box<ExprView>),
    BitXor(Box<ExprView>, Box<ExprView>),
    Add(Box<ExprView>, Box<ExprView>),
    Sub(Box<ExprView>, Box<ExprView>),
    Mul(Box<ExprView>, Box<ExprView>),
    Div(Box<ExprView>, Box<ExprView>),
    Rem(Box<ExprView>, Box<ExprView>),
    Shl(Box<ExprView>, Box<ExprView>),
    Shr(Box<ExprView>, Box<ExprView>),
    Eq(Box<ExprView>, Box<ExprView>),
    Neq(Box<ExprView>, Box<ExprView>),
    Lt(Box<ExprView>, Box<ExprView>),
    Lte(Box<ExprView>, Box<ExprView>),
    Gt(Box<ExprView>, Box<ExprView>),
    Gte(Box<ExprView>, Box<ExprView>),
    FunCall(ErasedFunHandle, Seq<ExprView>),
    Swizzle(Box<ExprView>, Swizzle),
    Field { object: Box<ExprView>, field: Box<ExprView> },
    ArrayLookup { object: Box<ExprView>, index: Box<ExprView> },
}

/// The node that applies `op` to `a` and `b`.
pub open spec fn binary_view(op: BinOp, a: ExprView, b: ExprView) -> ExprView {
    match op {
        BinOp::And => ExprView::And(Box::new(a), Box::new(b)),
        BinOp::Or => ExprView::Or(Box::new(a), Box::new(b)),
        BinOp::Xor => ExprView::Xor(Box::new(a), Box::new(b)),
        BinOp::BitOr => ExprView::BitOr(Box::new(a), Box::new(b)),
        BinOp::BitAnd => ExprView::BitAnd(Box::new(a), Box::new(b)),
        BinOp::BitXor => ExprView::BitXor(Box::new(a), Box::new(b)),
        BinOp::Add => ExprView::Add(Box::new(a), Box::new(b)),
        BinOp::Sub => ExprView::Sub(Box::new(a), Box::new(b)),
        BinOp::Mul => ExprView::Mul(Box::new(a), Box::new(b)),
        BinOp::Div => ExprView::Div(Box::new(a), Box::new(b)),
        BinOp::Rem => ExprView::Rem(Box::new(a), Box::new(b)),
        BinOp::Shl => ExprView::Shl(Box::new(a), Box::new(b)),
        BinOp::Shr => ExprView::Shr(Box::new(a), Box::new(b)),
        BinOp::Eq => ExprView::Eq(Box::new(a), Box::new(b)),
        BinOp::Neq => ExprView::Neq(Box::new(a), Box::new(b)),
        BinOp::Lt => ExprView::Lt(Box::new(a), Box::new(b)),
        BinOp::Lte => ExprView::Lte(Box::new(a), Box::new(b)),
        BinOp::Gt => ExprView::Gt(Box::new(a), Box::new(b)),
        BinOp::Gte => ExprView::Gte(Box::new(a), Box::new(b)),
    }
}

impl ErasedExpr {
    /// The view of this tree, node by node.
    pub open spec fn model(&self) -> ExprView
        decreases self,
    {
        match self {
            ErasedExpr::LitInt(v) => ExprView::LitInt(*v),
            ErasedExpr::LitUInt(v) => ExprView::LitUInt(*v),
            ErasedExpr::LitFloat(v) => ExprView::LitFloat(*v),
            ErasedExpr::LitBool(v) => ExprView::LitBool(*v),
            ErasedExpr::LitInt2(v) => ExprView::LitInt2(*v),
            ErasedExpr::LitUInt2(v) => ExprView::LitUInt2(*v),
            ErasedExpr::LitFloat2(v) => ExprView::LitFloat2(*v),
            ErasedExpr::LitBool2(v) => ExprView::LitBool2(*v),
            ErasedExpr::LitInt3(v) => ExprView::LitInt3(*v),
            ErasedExpr::LitUInt3(v) => ExprView::LitUInt3(*v),
            ErasedExpr::LitFloat3(v) => ExprView::LitFloat3(*v),
            ErasedExpr::LitBool3(v) => ExprView::LitBool3(*v),
            ErasedExpr::LitInt4(v) => ExprView::LitInt4(*v),
            ErasedExpr::LitUInt4(v) => ExprView::LitUInt4(*v),
            ErasedExpr::LitFloat4(v) => ExprView::LitFloat4(*v),
            ErasedExpr::LitBool4(v) => ExprView::LitBool4(*v),
            ErasedExpr::Array(t, elems) => ExprView::Array(
                t@,
                Seq::new(
                    elems@.len(),
                    |i: int|
                        if 0 <= i < elems@.len() {
                            elems@[i].model()
                        } else {
                            ExprView::LitBool(false)
                        },
                ),
            ),
            ErasedExpr::MutVar(h) => ExprView::MutVar(*h),
            ErasedExpr::ImmutBuiltIn(b) => ExprView::ImmutBuiltIn(*b),
            ErasedExpr::Not(a) => ExprView::Not(Box::new(a.model())),
            ErasedExpr::Neg(a) => ExprView::Neg(Box::new(a.model())),
            ErasedExpr::And(a, b) => ExprView::And(Box::new(a.model()), Box::new(b.model())),
            ErasedExpr::Or(a, b) => ExprView::Or(Box::new(a.model()), Box::new(b.model())),
            ErasedExpr::Xor(a, b) => ExprView::Xor(Box::new(a.model()), Box::new(b.model())),
            ErasedExpr::BitOr(a, b) => ExprView::BitOr(Box::new(a.model()), Box::new(b.model())),
            ErasedExpr::BitAnd(a, b) => ExprView::BitAnd(Box::new(a.model()), Box::new(b.model())),
            ErasedExpr::BitXor(a, b) => ExprView::BitXor(Box::new(a.model()), Box::new(b.model())),
            ErasedExpr::Add(a, b) => ExprView::Add(Box::new(a.model()), Box::new(b.model())),
            ErasedExpr::Sub(a, b) => ExprView::Sub(Box::new(a.model()), Box::new(b.model())),
            ErasedExpr::Mul(a, b) => ExprView::Mul(Box::new(a.model()), Box::new(b.model())),
            ErasedExpr::Div(a, b) => ExprView::Div(Box::new(a.model()), Box::new(b.model())),
            ErasedExpr::Rem(a, b) => ExprView::Rem(Box::new(a.model()), Box::new(b.model())),
            ErasedExpr::Shl(a, b) => ExprView::Shl(Box::new(a.model()), Box::new(b.model())),
            ErasedExpr::Shr(a, b) => ExprView::Shr(Box::new(a.model()), Box::new(b.model())),
            ErasedExpr::Eq(a, b) => ExprView::Eq(Box::new(a.model()), Box::new(b.model())),
            ErasedExpr::Neq(a, b) => ExprView::Neq(Box::new(a.model()), Box::new(b.model())),
            ErasedExpr::Lt(a, b) => ExprView::Lt(Box::new(a.model()), Box::new(b.model())),
            ErasedExpr::Lte(a, b) => ExprView::Lte(Box::new(a.model()), Box::new(b.model())),
            ErasedExpr::Gt(a, b) => ExprView::Gt(Box::new(a.model()), Box::new(b.model())),
            ErasedExpr::Gte(a, b) => ExprView::Gte(Box::new(a.model()), Box::new(b.model())),
            ErasedExpr::FunCall(h, args) => ExprView::FunCall(
                *h,
                Seq::new(
                    args@.len(),
                    |i: int|
                        if 0 <= i < args@.len() {
                            args@[i].model()
                        } else {
                            ExprView::LitBool(false)
                        },
                ),
            ),
            ErasedExpr::Swizzle(a, s) => ExprView::Swizzle(Box::new(a.model()), *s),
            ErasedExpr::Field { object, field } => ExprView::Field {
                object: Box::new(object.model()),
                field: Box::new(field.model()),
            },
            ErasedExpr::ArrayLookup { object, index } => ExprView::ArrayLookup {
                object: Box::new(object.model()),
                index: Box::new(index.model()),
            },
        }
    }
}

impl View for ErasedExpr {
    type V = ExprView;

    open spec fn view(&self) -> ExprView {
        self.model()
    }
}

pub(crate) proof fn lemma_array_elem_decreases(e: ErasedExpr, i: int)
    requires
        e is Array,
        0 <= i < e->Array_1@.len(),
    ensures
        decreases_to!(e => e->Array_1@[i]),
{
    broadcast use vstd::std_specs::vec::axiom_vec_index_decreases;

    assert(decreases_to!(e => e->Array_1));
    assert(decreases_to!(e->Array_1 => e->Array_1[i]));
}

pub(crate) proof fn lemma_call_arg_decreases(e: ErasedExpr, i: int)
    requires
        e is FunCall,
        0 <= i < e->FunCall_1@.len(),
    ensures
        decreases_to!(e => e->FunCall_1@[i]),
{
    broadcast use vstd::std_specs::vec::axiom_vec_index_decreases;

    assert(decreases_to!(e => e->FunCall_1));
    assert(decreases_to!(e->FunCall_1 => e->FunCall_1[i]));
}

/// Builds the node that applies `op` to `a` and `b`.
pub fn binary(op: BinOp, a: ErasedExpr, b: ErasedExpr) -> (r: ErasedExpr)
    ensures
        r@ == binary_view(op, a@, b@),
{
    let a = Box::new(a);
    let b = Box::new(b);
    match op {
        BinOp::And => ErasedExpr::And(a, b),
        BinOp::Or => ErasedExpr::Or(a, b),
        BinOp::Xor => ErasedExpr::Xor(a, b),
        BinOp::BitOr => ErasedExpr::BitOr(a, b),
        BinOp::BitAnd => ErasedExpr::BitAnd(a, b),
        BinOp::BitXor => ErasedExpr::BitXor(a, b),
        BinOp::Add => ErasedExpr::Add(a, b),
        BinOp::Sub => ErasedExpr::Sub(a, b),
        BinOp::Mul => ErasedExpr::Mul(a, b),
        BinOp::Div => ErasedExpr::Div(a, b),
        BinOp::Rem => ErasedExpr::Rem(a, b),
        BinOp::Shl => ErasedExpr::Shl(a, b),
        BinOp::Shr => ErasedExpr::Shr(a, b),
        BinOp::Eq => ErasedExpr::Eq(a, b),
        BinOp::Neq => ErasedExpr::Neq(a, b),
        BinOp::Lt => ErasedExpr::Lt(a, b),
        BinOp::Lte => ErasedExpr::Lte(a, b),
        BinOp::Gt => ErasedExpr::Gt(a, b),
        BinOp::Gte => ErasedExpr::Gte(a, b),
    }
}

impl Clone for ErasedExpr {
    fn clone(&self) -> (r: Self)
        ensures
            r@ == self@,
    {
        copy_expr(self)
    }
}

/// A deep copy of `e`.
pub fn copy_expr(e: &ErasedExpr) -> (r: ErasedExpr)
    ensures
        r@ == e@,
    decreases e,
{
    match e {
        ErasedExpr::LitInt(v) => ErasedExpr::LitInt(*v),
        ErasedExpr::LitUInt(v) => ErasedExpr::LitUInt(*v),
        ErasedExpr::LitFloat(v) => ErasedExpr::LitFloat(*v),
        ErasedExpr::LitBool(v) => ErasedExpr::LitBool(*v),
        ErasedExpr::LitInt2(v) => ErasedExpr::LitInt2(*v),
        ErasedExpr::LitUInt2(v) => ErasedExpr::LitUInt2(*v),
        ErasedExpr::LitFloat2(v) => ErasedExpr::LitFloat2(*v),
        ErasedExpr::LitBool2(v) => ErasedExpr::LitBool2(*v),
        ErasedExpr::LitInt3(v) => ErasedExpr::LitInt3(*v),
        ErasedExpr::LitUInt3(v) => ErasedExpr::LitUInt3(*v),
        ErasedExpr::LitFloat3(v) => ErasedExpr::LitFloat3(*v),
        ErasedExpr::LitBool3(v) => ErasedExpr::LitBool3(*v),
        ErasedExpr::LitInt4(v) => ErasedExpr::LitInt4(*v),
        ErasedExpr::LitUInt4(v) => ErasedExpr::LitUInt4(*v),
        ErasedExpr::LitFloat4(v) => ErasedExpr::LitFloat4(*v),
        ErasedExpr::LitBool4(v) => ErasedExpr::LitBool4(*v),
        ErasedExpr::Array(t, elems) => {
            let mut out: Vec<ErasedExpr> = Vec::new();
            let mut i: usize = 0;
            while i < elems.len()
                invariant
                    *e == ErasedExpr::Array(*t, *elems),
                    i <= elems@.len(),
                    out@.len() == i,
                    forall|j: int| 0 <= j < i ==> (#[trigger] out@[j])@ == elems@[j]@,
                decreases elems@.len() - i,
            {
                proof {
                    lemma_array_elem_decreases(*e, i as int);
                }
                let c = copy_expr(&elems[i]);
                out.push(c);
                i = i + 1;
            }
            let r = ErasedExpr::Array(t.copy(), out);
            proof {
                assert(r@->Array_1 =~= e@->Array_1);
            }
            r
        },
        ErasedExpr::MutVar(h) => ErasedExpr::MutVar(*h),
        ErasedExpr::ImmutBuiltIn(b) => ErasedExpr::ImmutBuiltIn(*b),
        ErasedExpr::Not(a) => ErasedExpr::Not(Box::new(copy_expr(a))),
        ErasedExpr::Neg(a) => ErasedExpr::Neg(Box::new(copy_expr(a))),
        ErasedExpr::And(a, b) => ErasedExpr::And(Box::new(copy_expr(a)), Box::new(copy_expr(b))),
        ErasedExpr::Or(a, b) => ErasedExpr::Or(Box::new(copy_expr(a)), Box::new(copy_expr(b))),
        ErasedExpr::Xor(a, b) => ErasedExpr::Xor(Box::new(copy_expr(a)), Box::new(copy_expr(b))),
        ErasedExpr::BitOr(a, b) => ErasedExpr::BitOr(Box::new(copy_expr(a)), Box::new(copy_expr(b))),
        ErasedExpr::BitAnd(a, b) => ErasedExpr::BitAnd(Box::new(copy_expr(a)), Box::new(copy_expr(b))),
        ErasedExpr::BitXor(a, b) => ErasedExpr::BitXor(Box::new(copy_expr(a)), Box::new(copy_expr(b))),
        ErasedExpr::Add(a, b) => ErasedExpr::Add(Box::new(copy_expr(a)), Box::new(copy_expr(b))),
        ErasedExpr::Sub(a, b) => ErasedExpr::Sub(Box::new(copy_expr(a)), Box::new(copy_expr(b))),
        ErasedExpr::Mul(a, b) => ErasedExpr::Mul(Box::new(copy_expr(a)), Box::new(copy_expr(b))),
        ErasedExpr::Div(a, b) => ErasedExpr::Div(Box::new(copy_expr(a)), Box::new(copy_expr(b))),
        ErasedExpr::Rem(a, b) => ErasedExpr::Rem(Box::new(copy_expr(a)), Box::new(copy_expr(b))),
        ErasedExpr::Shl(a, b) => ErasedExpr::Shl(Box::new(copy_expr(a)), Box::new(copy_expr(b))),
        ErasedExpr::Shr(a, b) => ErasedExpr::Shr(Box::new(copy_expr(a)), Box::new(copy_expr(b))),
        ErasedExpr::Eq(a, b) => ErasedExpr::Eq(Box::new(copy_expr(a)), Box::new(copy_expr(b))),
        ErasedExpr::Neq(a, b) => ErasedExpr::Neq(Box::new(copy_expr(a)), Box::new(copy_expr(b))),
        ErasedExpr::Lt(a, b) => ErasedExpr::Lt(Box::new(copy_expr(a)), Box::new(copy_expr(b))),
        ErasedExpr::Lte(a, b) => ErasedExpr::Lte(Box::new(copy_expr(a)), Box::new(copy_expr(b))),
        ErasedExpr::Gt(a, b) => ErasedExpr::Gt(Box::new(copy_expr(a)), Box::new(copy_expr(b))),
        ErasedExpr::Gte(a, b) => ErasedExpr::Gte(Box::new(copy_expr(a)), Box::new(copy_expr(b))),
        ErasedExpr::FunCall(h, args) => {
            let mut out: Vec<ErasedExpr> = Vec::new();
            let mut i: usize = 0;
            while i < args.len()
                invariant
                    *e == ErasedExpr::FunCall(*h, *args),
                    i <= args@.len(),
                    out@.len() == i,
                    forall|j: int| 0 <= j < i ==> (#[trigger] out@[j])@ == args@[j]@,
                decreases args@.len() - i,
            {
                proof {
                    lemma_call_arg_decreases(*e, i as int);
                }
                let c = copy_expr(&args[i]);
                out.push(c);
                i = i + 1;
            }
            let r = ErasedExpr::FunCall(*h, out);
            proof {
                assert(r@->FunCall_1 =~= e@->FunCall_1);
            }
            r
        },
        ErasedExpr::Swizzle(a, s) => ErasedExpr::Swizzle(Box::new(copy_expr(a)), *s),
        ErasedExpr::Field { object, field } => ErasedExpr::Field {
            object: Box::new(copy_expr(object)),
            field: Box::new(copy_expr(field)),
        },
        ErasedExpr::ArrayLookup { object, index } => ErasedExpr::ArrayLookup {
            object: Box::new(copy_expr(object)),
            index: Box::new(copy_expr(index)),
        },
    }
}

} // verus!
