//! The printer: renders a shader as source text of a C-like shading language.
//!
//! Each `*_text` spec function states the text of one construct; the writer
//! functions append exactly that text to a `String`.

use vstd::prelude::*;
use vstd::string::StringExecFns;

use crate::builtin::{
    BuiltIn, FragmentBuiltIn, GeometryBuiltIn, TessCtrlBuiltIn, TessEvalBuiltIn, VertexBuiltIn,
};
use crate::expr::{
    lemma_array_elem_decreases, lemma_call_arg_decreases, ErasedExpr, ErasedFunHandle, ExprView,
    ScopedHandle, Swizzle, SwizzleSelector,
};
use crate::fun::{ErasedFun, FunView};
use crate::scope::{ErasedReturn, ErasedScope, InstrView, ReturnView, ScopeInstr};
use crate::shader::{DeclView, Shader, ShaderDecl, ShaderView};
use crate::types::Float;
use crate::types::{Dim, PrimType, Type, TypeView};

verus! {

/// The decimal digit `d`.
pub open spec fn digit_text(d: nat) -> Seq<char> {
    if d == 0 { "0"@ } else if d == 1 { "1"@ } else if d == 2 { "2"@ } else if d == 3 { "3"@ }
    else if d == 4 { "4"@ } else if d == 5 { "5"@ } else if d == 6 { "6"@ } else if d == 7 { "7"@ }
    else if d == 8 { "8"@ } else { "9"@ }
}

/// The decimal notation of `n`, without leading zeros.
pub open spec fn decimal(n: nat) -> Seq<char>
    decreases n,
{
    if n < 10 {
        digit_text(n)
    } else {
        decimal(n / 10) + digit_text(n % 10)
    }
}

/// The decimal notation of the signed `v`.
pub open spec fn int_text(v: int) -> Seq<char> {
    if v < 0 {
        "-"@ + decimal((-v) as nat)
    } else {
        decimal(v as nat)
    }
}

fn digit_str(d: u64) -> (r: &'static str)
    requires
        d < 10,
    ensures
        r@ == digit_text(d as nat),
{
    if d == 0 { "0" } else if d == 1 { "1" } else if d == 2 { "2" } else if d == 3 { "3" }
    else if d == 4 { "4" } else if d == 5 { "5" } else if d == 6 { "6" } else if d == 7 { "7" }
    else if d == 8 { "8" } else { "9" }
}

fn write_decimal(out: &mut String, n: u64)
    ensures
        final(out)@ == old(out)@ + decimal(n as nat),
    decreases n,
{
    if n >= 10 {
        write_decimal(out, n / 10);
    }
    out.append(digit_str(n % 10));
    proof {
        if n >= 10 {
            assert(final(out)@ =~= old(out)@ + decimal(n as nat));
        }
    }
}

fn write_int(out: &mut String, v: i32)
    ensures
        final(out)@ == old(out)@ + int_text(v as int),
{
    if v < 0 {
        out.append("-");
        let m: u64 = (0 - (v as i64)) as u64;
        write_decimal(out, m);
        proof {
            assert(final(out)@ =~= old(out)@ + int_text(v as int));
        }
    } else {
        write_decimal(out, v as u64);
    }
}

/// The name of a primitive type.
pub open spec fn prim_name(p: PrimType) -> &'static str {
    match p {
        PrimType::Int(Dim::Scalar) => "int",
        PrimType::Int(Dim::D2) => "ivec2",
        PrimType::Int(Dim::D3) => "ivec3",
        PrimType::Int(Dim::D4) => "ivec4",
        PrimType::UInt(Dim::Scalar) => "uint",
        PrimType::UInt(Dim::D2) => "uvec2",
        PrimType::UInt(Dim::D3) => "uvec3",
        PrimType::UInt(Dim::D4) => "uvec4",
        PrimType::Float(Dim::Scalar) => "float",
        PrimType::Float(Dim::D2) => "vec2",
        PrimType::Float(Dim::D3) => "vec3",
        PrimType::Float(Dim::D4) => "vec4",
        PrimType::Bool(Dim::Scalar) => "bool",
        PrimType::Bool(Dim::D2) => "bvec2",
        PrimType::Bool(Dim::D3) => "bvec3",
        PrimType::Bool(Dim::D4) => "bvec4",
    }
}

fn prim_str(p: PrimType) -> (r: &'static str)
    ensures
        r == prim_name(p),
{
    match p {
        PrimType::Int(Dim::Scalar) => "int",
        PrimType::Int(Dim::D2) => "ivec2",
        PrimType::Int(Dim::D3) => "ivec3",
        PrimType::Int(Dim::D4) => "ivec4",
        PrimType::UInt(Dim::Scalar) => "uint",
        PrimType::UInt(Dim::D2) => "uvec2",
        PrimType::UInt(Dim::D3) => "uvec3",
        PrimType::UInt(Dim::D4) => "uvec4",
        PrimType::Float(Dim::Scalar) => "float",
        PrimType::Float(Dim::D2) => "vec2",
        PrimType::Float(Dim::D3) => "vec3",
        PrimType::Float(Dim::D4) => "vec4",
        PrimType::Bool(Dim::Scalar) => "bool",
        PrimType::Bool(Dim::D2) => "bvec2",
        PrimType::Bool(Dim::D3) => "bvec3",
        PrimType::Bool(Dim::D4) => "bvec4",
    }
}

/// Array extents as bracketed suffixes, outer extent first: `[M][N]`.
pub open spec fn dims_text(dims: Seq<usize>) -> Seq<char>
    decreases dims.len(),
{
    if dims.len() == 0 {
        Seq::empty()
    } else {
        dims_text(dims.drop_last()) + "["@ + decimal(dims.last() as nat) + "]"@
    }
}

fn write_dims(out: &mut String, dims: &Vec<usize>)
    ensures
        final(out)@ == old(out)@ + dims_text(dims@),
{
    let mut i: usize = 0;
    while i < dims.len()
        invariant
            i <= dims@.len(),
            out@ == old(out)@ + dims_text(dims@.subrange(0, i as int)),
        decreases dims@.len() - i,
    {
        let ghost before = out@;
        out.append("[");
        write_decimal(out, dims[i] as u64);
        out.append("]");
        proof {
            assert(dims@.subrange(0, i + 1).drop_last() =~= dims@.subrange(0, i as int));
            assert(out@ =~= old(out)@ + dims_text(dims@.subrange(0, i + 1)));
        }
        i = i + 1;
    }
    proof {
        assert(dims@.subrange(0, i as int) =~= dims@);
    }
}

/// The name of the type `t` as a constructor or return type: `int[3][2]`.
pub open spec fn type_text(t: TypeView) -> Seq<char> {
    prim_name(t.prim_ty)@ + dims_text(t.array_dims)
}

fn write_type(out: &mut String, t: &Type)
    ensures
        final(out)@ == old(out)@ + type_text(t@),
{
    out.append(prim_str(t.prim_ty));
    write_dims(out, &t.array_dims);
    proof {
        assert(final(out)@ =~= old(out)@ + type_text(t@));
    }
}

/// The identifier of a handle: `g_<i>` for globals, `arg_<i>` for arguments,
/// `v<s>_<h>` for local `h` of block `s`, the reserved name for built-ins.
pub open spec fn handle_text(h: ScopedHandle) -> Seq<char> {
    match h {
        ScopedHandle::BuiltIn(b) => builtin_name(b)@,
        ScopedHandle::Global(i) => "g_"@ + decimal(i as nat),
        ScopedHandle::FunArg(i) => "arg_"@ + decimal(i as nat),
        ScopedHandle::FunVar { subscope, handle } => "v"@ + decimal(subscope as nat) + "_"@ + decimal(handle as nat),
    }
}

fn write_handle(out: &mut String, h: ScopedHandle)
    ensures
        final(out)@ == old(out)@ + handle_text(h),
{
    match h {
        ScopedHandle::BuiltIn(b) => {
            out.append(builtin_str(b));
        },
        ScopedHandle::Global(i) => {
            out.append("g_");
            write_decimal(out, i as u64);
        },
        ScopedHandle::FunArg(i) => {
            out.append("arg_");
            write_decimal(out, i as u64);
        },
        ScopedHandle::FunVar { subscope, handle } => {
            out.append("v");
            write_decimal(out, subscope as u64);
            out.append("_");
            write_decimal(out, handle as u64);
        },
    }
    proof {
        assert(final(out)@ =~= old(out)@ + handle_text(h));
    }
}

/// A declaration of `name` with type `t`: `int name[3]`.
pub open spec fn declarator_text(t: TypeView, name: Seq<char>) -> Seq<char> {
    prim_name(t.prim_ty)@ + " "@ + name + dims_text(t.array_dims)
}

fn write_declarator(out: &mut String, t: &Type, h: ScopedHandle)
    ensures
        final(out)@ == old(out)@ + declarator_text(t@, handle_text(h)),
{
    out.append(prim_str(t.prim_ty));
    out.append(" ");
    write_handle(out, h);
    write_dims(out, &t.array_dims);
    proof {
        assert(final(out)@ =~= old(out)@ + declarator_text(t@, handle_text(h)));
    }
}

/// The name of the function a call refers to.
pub open spec fn fun_text(h: ErasedFunHandle) -> Seq<char> {
    match h {
        ErasedFunHandle::UserDefined(n) => "fun_"@ + decimal(n as nat),
        _ => intrinsic_name(h)@,
    }
}

fn write_fun_name(out: &mut String, h: ErasedFunHandle)
    ensures
        final(out)@ == old(out)@ + fun_text(h),
{
    match h {
        ErasedFunHandle::UserDefined(n) => {
            out.append("fun_");
            write_decimal(out, n as u64);
            proof {
                assert(final(out)@ =~= old(out)@ + fun_text(h));
            }
        },
        _ => {
            out.append(intrinsic_str(h));
        },
    }
}

/// The reserved name of a built-in slot.
pub open spec fn builtin_name(b: BuiltIn) -> &'static str {
    match b {
        BuiltIn::Vertex(v) => match v {
            VertexBuiltIn::VertexID => "gl_VertexID",
            VertexBuiltIn::InstanceID => "gl_InstanceID",
            VertexBuiltIn::BaseVertex => "gl_BaseVertex",
            VertexBuiltIn::BaseInstance => "gl_BaseInstance",
            VertexBuiltIn::Position => "gl_Position",
            VertexBuiltIn::PointSize => "gl_PointSize",
            VertexBuiltIn::ClipDistance => "gl_ClipDistance",
        },
        BuiltIn::TessCtrl(v) => match v {
            TessCtrlBuiltIn::MaxPatchVerticesIn => "gl_MaxPatchVertices",
            TessCtrlBuiltIn::PatchVerticesIn => "gl_PatchVerticesIn",
            TessCtrlBuiltIn::PrimitiveID => "gl_PrimitiveID",
            TessCtrlBuiltIn::InvocationID => "gl_InvocationID",
            TessCtrlBuiltIn::TessellationLevelOuter => "gl_TessLevelOuter",
            TessCtrlBuiltIn::TessellationLevelInner => "gl_TessLevelInner",
            TessCtrlBuiltIn::In => "gl_in",
            TessCtrlBuiltIn::Out => "gl_out",
            TessCtrlBuiltIn::Position => "gl_Position",
            TessCtrlBuiltIn::PointSize => "gl_PointSize",
            TessCtrlBuiltIn::ClipDistance => "gl_ClipDistance",
            TessCtrlBuiltIn::CullDistance => "gl_CullDistance",
        },
        BuiltIn::TessEval(v) => match v {
            TessEvalBuiltIn::TessCoord => "gl_TessCoord",
            TessEvalBuiltIn::MaxPatchVerticesIn => "gl_MaxPatchVertices",
            TessEvalBuiltIn::PatchVerticesIn => "gl_PatchVerticesIn",
            TessEvalBuiltIn::PrimitiveID => "gl_PrimitiveID",
            TessEvalBuiltIn::TessellationLevelOuter => "gl_TessLevelOuter",
            TessEvalBuiltIn::TessellationLevelInner => "gl_TessLevelInner",
            TessEvalBuiltIn::In => "gl_in",
            TessEvalBuiltIn::Out => "gl_out",
            TessEvalBuiltIn::Position => "gl_Position",
            TessEvalBuiltIn::PointSize => "gl_PointSize",
            TessEvalBuiltIn::ClipDistance => "gl_ClipDistance",
            TessEvalBuiltIn::CullDistance => "gl_CullDistance",
        },
        BuiltIn::Geometry(v) => match v {
            GeometryBuiltIn::In => "gl_in",
            GeometryBuiltIn::Out => "gl_out",
            GeometryBuiltIn::Position => "gl_Position",
            GeometryBuiltIn::PointSize => "gl_PointSize",
            GeometryBuiltIn::ClipDistance => "gl_ClipDistance",
            GeometryBuiltIn::CullDistance => "gl_CullDistance",
            GeometryBuiltIn::PrimitiveID => "gl_PrimitiveID",
            GeometryBuiltIn::PrimitiveIDIn => "gl_PrimitiveIDIn",
            GeometryBuiltIn::InvocationID => "gl_InvocationID",
            GeometryBuiltIn::Layer => "gl_Layer",
            GeometryBuiltIn::ViewportIndex => "gl_ViewportIndex",
        },
        BuiltIn::Fragment(v) => match v {
            FragmentBuiltIn::FragCoord => "gl_FragCoord",
            FragmentBuiltIn::FrontFacing => "gl_FrontFacing",
            FragmentBuiltIn::PointCoord => "gl_PointCoord",
            FragmentBuiltIn::SampleID => "gl_SampleID",
            FragmentBuiltIn::SamplePosition => "gl_SamplePosition",
            FragmentBuiltIn::SampleMaskIn => "gl_SampleMaskIn",
            FragmentBuiltIn::ClipDistance => "gl_ClipDistance",
            FragmentBuiltIn::CullDistance => "gl_CullDistance",
            FragmentBuiltIn::PrimitiveID => "gl_PrimitiveID",
            FragmentBuiltIn::Layer => "gl_Layer",
            FragmentBuiltIn::ViewportIndex => "gl_ViewportIndex",
            FragmentBuiltIn::FragDepth => "gl_FragDepth",
            FragmentBuiltIn::SampleMask => "gl_SampleMask",
            FragmentBuiltIn::HelperInvocation => "gl_HelperInvocation",
        },
    }
}

fn builtin_str(b: BuiltIn) -> (r: &'static str)
    ensures
        r == builtin_name(b),
{
    match b {
        BuiltIn::Vertex(v) => match v {
            VertexBuiltIn::VertexID => "gl_VertexID",
            VertexBuiltIn::InstanceID => "gl_InstanceID",
            VertexBuiltIn::BaseVertex => "gl_BaseVertex",
            VertexBuiltIn::BaseInstance => "gl_BaseInstance",
            VertexBuiltIn::Position => "gl_Position",
            VertexBuiltIn::PointSize => "gl_PointSize",
            VertexBuiltIn::ClipDistance => "gl_ClipDistance",
        },
        BuiltIn::TessCtrl(v) => match v {
            TessCtrlBuiltIn::MaxPatchVerticesIn => "gl_MaxPatchVertices",
            TessCtrlBuiltIn::PatchVerticesIn => "gl_PatchVerticesIn",
            TessCtrlBuiltIn::PrimitiveID => "gl_PrimitiveID",
            TessCtrlBuiltIn::InvocationID => "gl_InvocationID",
            TessCtrlBuiltIn::TessellationLevelOuter => "gl_TessLevelOuter",
            TessCtrlBuiltIn::TessellationLevelInner => "gl_TessLevelInner",
            TessCtrlBuiltIn::In => "gl_in",
            TessCtrlBuiltIn::Out => "gl_out",
            TessCtrlBuiltIn::Position => "gl_Position",
            TessCtrlBuiltIn::PointSize => "gl_PointSize",
            TessCtrlBuiltIn::ClipDistance => "gl_ClipDistance",
            TessCtrlBuiltIn::CullDistance => "gl_CullDistance",
        },
        BuiltIn::TessEval(v) => match v {
            TessEvalBuiltIn::TessCoord => "gl_TessCoord",
            TessEvalBuiltIn::MaxPatchVerticesIn => "gl_MaxPatchVertices",
            TessEvalBuiltIn::PatchVerticesIn => "gl_PatchVerticesIn",
            TessEvalBuiltIn::PrimitiveID => "gl_PrimitiveID",
            TessEvalBuiltIn::TessellationLevelOuter => "gl_TessLevelOuter",
            TessEvalBuiltIn::TessellationLevelInner => "gl_TessLevelInner",
            TessEvalBuiltIn::In => "gl_in",
            TessEvalBuiltIn::Out => "gl_out",
            TessEvalBuiltIn::Position => "gl_Position",
            TessEvalBuiltIn::PointSize => "gl_PointSize",
            TessEvalBuiltIn::ClipDistance => "gl_ClipDistance",
            TessEvalBuiltIn::CullDistance => "gl_CullDistance",
        },
        BuiltIn::Geometry(v) => match v {
            GeometryBuiltIn::In => "gl_in",
            GeometryBuiltIn::Out => "gl_out",
            GeometryBuiltIn::Position => "gl_Position",
            GeometryBuiltIn::PointSize => "gl_PointSize",
            GeometryBuiltIn::ClipDistance => "gl_ClipDistance",
            GeometryBuiltIn::CullDistance => "gl_CullDistance",
            GeometryBuiltIn::PrimitiveID => "gl_PrimitiveID",
            GeometryBuiltIn::PrimitiveIDIn => "gl_PrimitiveIDIn",
            GeometryBuiltIn::InvocationID => "gl_InvocationID",
            GeometryBuiltIn::Layer => "gl_Layer",
            GeometryBuiltIn::ViewportIndex => "gl_ViewportIndex",
        },
        BuiltIn::Fragment(v) => match v {
            FragmentBuiltIn::FragCoord => "gl_FragCoord",
            FragmentBuiltIn::FrontFacing => "gl_FrontFacing",
            FragmentBuiltIn::PointCoord => "gl_PointCoord",
            FragmentBuiltIn::SampleID => "gl_SampleID",
            FragmentBuiltIn::SamplePosition => "gl_SamplePosition",
            FragmentBuiltIn::SampleMaskIn => "gl_SampleMaskIn",
            FragmentBuiltIn::ClipDistance => "gl_ClipDistance",
            FragmentBuiltIn::CullDistance => "gl_CullDistance",
            FragmentBuiltIn::PrimitiveID => "gl_PrimitiveID",
            FragmentBuiltIn::Layer => "gl_Layer",
            FragmentBuiltIn::ViewportIndex => "gl_ViewportIndex",
            FragmentBuiltIn::FragDepth => "gl_FragDepth",
            FragmentBuiltIn::SampleMask => "gl_SampleMask",
            FragmentBuiltIn::HelperInvocation => "gl_HelperInvocation",
        },
    }
}

/// The name of an intrinsic, or of the entry point. User functions are named by
/// [`fun_text`].
pub open spec fn intrinsic_name(h: ErasedFunHandle) -> &'static str {
    match h {
        ErasedFunHandle::Main => "main",
        ErasedFunHandle::Radians => "radians",
        ErasedFunHandle::Degrees => "degrees",
        ErasedFunHandle::Sin => "sin",
        ErasedFunHandle::Cos => "cos",
        ErasedFunHandle::Tan => "tan",
        ErasedFunHandle::ASin => "asin",
        ErasedFunHandle::ACos => "acos",
        ErasedFunHandle::ATan => "atan",
        ErasedFunHandle::SinH => "sinh",
        ErasedFunHandle::CosH => "cosh",
        ErasedFunHandle::TanH => "tanh",
        ErasedFunHandle::ASinH => "asinh",
        ErasedFunHandle::ACosH => "acosh",
        ErasedFunHandle::ATanH => "atanh",
        ErasedFunHandle::Pow => "pow",
        ErasedFunHandle::Exp => "exp",
        ErasedFunHandle::Exp2 => "exp2",
        ErasedFunHandle::Log => "log",
        ErasedFunHandle::Log2 => "log2",
        ErasedFunHandle::Sqrt => "sqrt",
        ErasedFunHandle::InverseSqrt => "inversesqrt",
        ErasedFunHandle::Abs => "abs",
        ErasedFunHandle::Sign => "sign",
        ErasedFunHandle::Floor => "floor",
        ErasedFunHandle::Trunc => "trunc",
        ErasedFunHandle::Round => "round",
        ErasedFunHandle::RoundEven => "roundEven",
        ErasedFunHandle::Ceil => "ceil",
        ErasedFunHandle::Fract => "fract",
        ErasedFunHandle::Min => "min",
        ErasedFunHandle::Max => "max",
        ErasedFunHandle::Clamp => "clamp",
        ErasedFunHandle::Mix => "mix",
        ErasedFunHandle::Step => "step",
        ErasedFunHandle::SmoothStep => "smoothstep",
        ErasedFunHandle::IsNan => "isnan",
        ErasedFunHandle::IsInf => "isinf",
        ErasedFunHandle::FloatBitsToInt => "floatBitsToInt",
        ErasedFunHandle::IntBitsToFloat => "intBitsToFloat",
        ErasedFunHandle::UIntBitsToFloat => "uintBitsToFloat",
        ErasedFunHandle::FMA => "fma",
        ErasedFunHandle::Frexp => "frexp",
        ErasedFunHandle::Ldexp => "ldexp",
        ErasedFunHandle::PackUnorm2x16 => "packUnorm2x16",
        ErasedFunHandle::PackSnorm2x16 => "packSnorm2x16",
        ErasedFunHandle::PackUnorm4x8 => "packUnorm4x8",
        ErasedFunHandle::PackSnorm4x8 => "packSnorm4x8",
        ErasedFunHandle::UnpackUnorm2x16 => "unpackUnorm2x16",
        ErasedFunHandle::UnpackSnorm2x16 => "unpackSnorm2x16",
        ErasedFunHandle::UnpackUnorm4x8 => "unpackUnorm4x8",
        ErasedFunHandle::UnpackSnorm4x8 => "unpackSnorm4x8",
        ErasedFunHandle::PackHalf2x16 => "packHalf2x16",
        ErasedFunHandle::UnpackHalf2x16 => "unpackHalf2x16",
        ErasedFunHandle::Length => "length",
        ErasedFunHandle::Distance => "distance",
        ErasedFunHandle::Dot => "dot",
        ErasedFunHandle::Cross => "cross",
        ErasedFunHandle::Normalize => "normalize",
        ErasedFunHandle::FaceForward => "faceforward",
        ErasedFunHandle::Reflect => "reflect",
        ErasedFunHandle::Refract => "refract",
        ErasedFunHandle::VLt => "lessThan",
        ErasedFunHandle::VLte => "lessThanEqual",
        ErasedFunHandle::VGt => "greaterThan",
        ErasedFunHandle::VGte => "greaterThanEqual",
        ErasedFunHandle::VEq => "equal",
        ErasedFunHandle::VNeq => "notEqual",
        ErasedFunHandle::VAny => "any",
        ErasedFunHandle::VAll => "all",
        ErasedFunHandle::VNot => "not",
        ErasedFunHandle::UAddCarry => "uaddCarry",
        ErasedFunHandle::USubBorrow => "usubBorrow",
        ErasedFunHandle::UMulExtended => "umulExtended",
        ErasedFunHandle::IMulExtended => "imulExtended",
        ErasedFunHandle::BitfieldExtract => "bitfieldExtract",
        ErasedFunHandle::BitfieldInsert => "bitfieldInsert",
        ErasedFunHandle::BitfieldReverse => "bitfieldReverse",
        ErasedFunHandle::BitCount => "bitCount",
        ErasedFunHandle::FindLSB => "findLSB",
        ErasedFunHandle::FindMSB => "findMSB",
        ErasedFunHandle::EmitStreamVertex => "EmitStreamVertex",
        ErasedFunHandle::EndStreamPrimitive => "EndStreamPrimitive",
        ErasedFunHandle::EmitVertex => "EmitVertex",
        ErasedFunHandle::EndPrimitive => "EndPrimitive",
        ErasedFunHandle::DFDX => "dFdx",
        ErasedFunHandle::DFDY => "dFdy",
        ErasedFunHandle::DFDXFine => "dFdxFine",
        ErasedFunHandle::DFDYFine => "dFdyFine",
        ErasedFunHandle::DFDXCoarse => "dFdxCoarse",
        ErasedFunHandle::DFDYCoarse => "dFdyCoarse",
        ErasedFunHandle::FWidth => "fwidth",
        ErasedFunHandle::FWidthFine => "fwidthFine",
        ErasedFunHandle::FWidthCoarse => "fwidthCoarse",
        ErasedFunHandle::InterpolateAtCentroid => "interpolateAtCentroid",
        ErasedFunHandle::InterpolateAtSample => "interpolateAtSample",
        ErasedFunHandle::InterpolateAtOffset => "interpolateAtOffset",
        ErasedFunHandle::Barrier => "barrier",
        ErasedFunHandle::MemoryBarrier => "memoryBarrier",
        ErasedFunHandle::MemoryBarrierAtomic => "memoryBarrierAtomicCounter",
        ErasedFunHandle::MemoryBarrierBuffer => "memoryBarrierBuffer",
        ErasedFunHandle::MemoryBarrierShared => "memoryBarrierShared",
        ErasedFunHandle::MemoryBarrierImage => "memoryBarrierImage",
        ErasedFunHandle::GroupMemoryBarrier => "groupMemoryBarrier",
        ErasedFunHandle::AnyInvocation => "anyInvocation",
        ErasedFunHandle::AllInvocations => "allInvocations",
        ErasedFunHandle::AllInvocationsEqual => "allInvocationsEqual",
        ErasedFunHandle::UserDefined(_) => "fun_",
    }
}

fn intrinsic_str(h: ErasedFunHandle) -> (r: &'static str)
    ensures
        r == intrinsic_name(h),
{
    match h {
        ErasedFunHandle::Main => "main",
        ErasedFunHandle::Radians => "radians",
        ErasedFunHandle::Degrees => "degrees",
        ErasedFunHandle::Sin => "sin",
        ErasedFunHandle::Cos => "cos",
        ErasedFunHandle::Tan => "tan",
        ErasedFunHandle::ASin => "asin",
        ErasedFunHandle::ACos => "acos",
        ErasedFunHandle::ATan => "atan",
        ErasedFunHandle::SinH => "sinh",
        ErasedFunHandle::CosH => "cosh",
        ErasedFunHandle::TanH => "tanh",
        ErasedFunHandle::ASinH => "asinh",
        ErasedFunHandle::ACosH => "acosh",
        ErasedFunHandle::ATanH => "atanh",
        ErasedFunHandle::Pow => "pow",
        ErasedFunHandle::Exp => "exp",
        ErasedFunHandle::Exp2 => "exp2",
        ErasedFunHandle::Log => "log",
        ErasedFunHandle::Log2 => "log2",
        ErasedFunHandle::Sqrt => "sqrt",
        ErasedFunHandle::InverseSqrt => "inversesqrt",
        ErasedFunHandle::Abs => "abs",
        ErasedFunHandle::Sign => "sign",
        ErasedFunHandle::Floor => "floor",
        ErasedFunHandle::Trunc => "trunc",
        ErasedFunHandle::Round => "round",
        ErasedFunHandle::RoundEven => "roundEven",
        ErasedFunHandle::Ceil => "ceil",
        ErasedFunHandle::Fract => "fract",
        ErasedFunHandle::Min => "min",
        ErasedFunHandle::Max => "max",
        ErasedFunHandle::Clamp => "clamp",
        ErasedFunHandle::Mix => "mix",
        ErasedFunHandle::Step => "step",
        ErasedFunHandle::SmoothStep => "smoothstep",
        ErasedFunHandle::IsNan => "isnan",
        ErasedFunHandle::IsInf => "isinf",
        ErasedFunHandle::FloatBitsToInt => "floatBitsToInt",
        ErasedFunHandle::IntBitsToFloat => "intBitsToFloat",
        ErasedFunHandle::UIntBitsToFloat => "uintBitsToFloat",
        ErasedFunHandle::FMA => "fma",
        ErasedFunHandle::Frexp => "frexp",
        ErasedFunHandle::Ldexp => "ldexp",
        ErasedFunHandle::PackUnorm2x16 => "packUnorm2x16",
        ErasedFunHandle::PackSnorm2x16 => "packSnorm2x16",
        ErasedFunHandle::PackUnorm4x8 => "packUnorm4x8",
        ErasedFunHandle::PackSnorm4x8 => "packSnorm4x8",
        ErasedFunHandle::UnpackUnorm2x16 => "unpackUnorm2x16",
        ErasedFunHandle::UnpackSnorm2x16 => "unpackSnorm2x16",
        ErasedFunHandle::UnpackUnorm4x8 => "unpackUnorm4x8",
        ErasedFunHandle::UnpackSnorm4x8 => "unpackSnorm4x8",
        ErasedFunHandle::PackHalf2x16 => "packHalf2x16",
        ErasedFunHandle::UnpackHalf2x16 => "unpackHalf2x16",
        ErasedFunHandle::Length => "length",
        ErasedFunHandle::Distance => "distance",
        ErasedFunHandle::Dot => "dot",
        ErasedFunHandle::Cross => "cross",
        ErasedFunHandle::Normalize => "normalize",
        ErasedFunHandle::FaceForward => "faceforward",
        ErasedFunHandle::Reflect => "reflect",
        ErasedFunHandle::Refract => "refract",
        ErasedFunHandle::VLt => "lessThan",
        ErasedFunHandle::VLte => "lessThanEqual",
        ErasedFunHandle::VGt => "greaterThan",
        ErasedFunHandle::VGte => "greaterThanEqual",
        ErasedFunHandle::VEq => "equal",
        ErasedFunHandle::VNeq => "notEqual",
        ErasedFunHandle::VAny => "any",
        ErasedFunHandle::VAll => "all",
        ErasedFunHandle::VNot => "not",
        ErasedFunHandle::UAddCarry => "uaddCarry",
        ErasedFunHandle::USubBorrow => "usubBorrow",
        ErasedFunHandle::UMulExtended => "umulExtended",
        ErasedFunHandle::IMulExtended => "imulExtended",
        ErasedFunHandle::BitfieldExtract => "bitfieldExtract",
        ErasedFunHandle::BitfieldInsert => "bitfieldInsert",
        ErasedFunHandle::BitfieldReverse => "bitfieldReverse",
        ErasedFunHandle::BitCount => "bitCount",
        ErasedFunHandle::FindLSB => "findLSB",
        ErasedFunHandle::FindMSB => "findMSB",
        ErasedFunHandle::EmitStreamVertex => "EmitStreamVertex",
        ErasedFunHandle::EndStreamPrimitive => "EndStreamPrimitive",
        ErasedFunHandle::EmitVertex => "EmitVertex",
        ErasedFunHandle::EndPrimitive => "EndPrimitive",
        ErasedFunHandle::DFDX => "dFdx",
        ErasedFunHandle::DFDY => "dFdy",
        ErasedFunHandle::DFDXFine => "dFdxFine",
        ErasedFunHandle::DFDYFine => "dFdyFine",
        ErasedFunHandle::DFDXCoarse => "dFdxCoarse",
        ErasedFunHandle::DFDYCoarse => "dFdyCoarse",
        ErasedFunHandle::FWidth => "fwidth",
        ErasedFunHandle::FWidthFine => "fwidthFine",
        ErasedFunHandle::FWidthCoarse => "fwidthCoarse",
        ErasedFunHandle::InterpolateAtCentroid => "interpolateAtCentroid",
        ErasedFunHandle::InterpolateAtSample => "interpolateAtSample",
        ErasedFunHandle::InterpolateAtOffset => "interpolateAtOffset",
        ErasedFunHandle::Barrier => "barrier",
        ErasedFunHandle::MemoryBarrier => "memoryBarrier",
        ErasedFunHandle::MemoryBarrierAtomic => "memoryBarrierAtomicCounter",
        ErasedFunHandle::MemoryBarrierBuffer => "memoryBarrierBuffer",
        ErasedFunHandle::MemoryBarrierShared => "memoryBarrierShared",
        ErasedFunHandle::MemoryBarrierImage => "memoryBarrierImage",
        ErasedFunHandle::GroupMemoryBarrier => "groupMemoryBarrier",
        ErasedFunHandle::AnyInvocation => "anyInvocation",
        ErasedFunHandle::AllInvocations => "allInvocations",
        ErasedFunHandle::AllInvocationsEqual => "allInvocationsEqual",
        ErasedFunHandle::UserDefined(_) => "fun_",
    }
}

/// The precedence level of the outermost construct of `e`; higher binds tighter.
/// Literals, references, calls, constructors and postfix forms are atomic (17).
pub open spec fn prec(e: ExprView) -> nat {
    match e {
        ExprView::LitInt(v) => if v < 0 { 15 } else { 17 },
        ExprView::Not(_) => 15,
        ExprView::Neg(_) => 15,
        ExprView::Mul(_, _) => 14,
        ExprView::Div(_, _) => 14,
        ExprView::Rem(_, _) => 14,
        ExprView::Add(_, _) => 13,
        ExprView::Sub(_, _) => 13,
        ExprView::Shl(_, _) => 12,
        ExprView::Shr(_, _) => 12,
        ExprView::Lt(_, _) => 11,
        ExprView::Lte(_, _) => 11,
        ExprView::Gt(_, _) => 11,
        ExprView::Gte(_, _) => 11,
        ExprView::Eq(_, _) => 10,
        ExprView::Neq(_, _) => 10,
        ExprView::BitAnd(_, _) => 9,
        ExprView::BitXor(_, _) => 8,
        ExprView::BitOr(_, _) => 7,
        ExprView::And(_, _) => 6,
        ExprView::Xor(_, _) => 5,
        ExprView::Or(_, _) => 4,
        _ => 17,
    }
}

fn prec_of(e: &ErasedExpr) -> (r: u8)
    ensures
        r == prec(e@),
{
    match e {
        ErasedExpr::LitInt(v) => if *v < 0 { 15 } else { 17 },
        ErasedExpr::Not(_) => 15,
        ErasedExpr::Neg(_) => 15,
        ErasedExpr::Mul(_, _) => 14,
        ErasedExpr::Div(_, _) => 14,
        ErasedExpr::Rem(_, _) => 14,
        ErasedExpr::Add(_, _) => 13,
        ErasedExpr::Sub(_, _) => 13,
        ErasedExpr::Shl(_, _) => 12,
        ErasedExpr::Shr(_, _) => 12,
        ErasedExpr::Lt(_, _) => 11,
        ErasedExpr::Lte(_, _) => 11,
        ErasedExpr::Gt(_, _) => 11,
        ErasedExpr::Gte(_, _) => 11,
        ErasedExpr::Eq(_, _) => 10,
        ErasedExpr::Neq(_, _) => 10,
        ErasedExpr::BitAnd(_, _) => 9,
        ErasedExpr::BitXor(_, _) => 8,
        ErasedExpr::BitOr(_, _) => 7,
        ErasedExpr::And(_, _) => 6,
        ErasedExpr::Xor(_, _) => 5,
        ErasedExpr::Or(_, _) => 4,
        _ => 17,
    }
}

/// `t`, in parentheses when `paren` holds.
pub open spec fn wrap(t: Seq<char>, paren: bool) -> Seq<char> {
    if paren {
        "("@ + t + ")"@
    } else {
        t
    }
}

/// An infix operation at level `p`. The left operand is parenthesised when it
/// binds more loosely than `p`; the right one also when it binds equally, since
/// every operator here groups to the left.
pub open spec fn infix_text(op: Seq<char>, p: nat, pa: nat, ta: Seq<char>, pb: nat, tb: Seq<char>) -> Seq<char> {
    wrap(ta, pa < p) + op + wrap(tb, pb <= p)
}

/// The letter of a vector component.
pub open spec fn selector_text(s: SwizzleSelector) -> Seq<char> {
    match s {
        SwizzleSelector::X => "x"@,
        SwizzleSelector::Y => "y"@,
        SwizzleSelector::Z => "z"@,
        SwizzleSelector::W => "w"@,
    }
}

/// The component letters of a swizzle.
pub open spec fn swizzle_text(s: Swizzle) -> Seq<char> {
    match s {
        Swizzle::D1(a) => selector_text(a),
        Swizzle::D2(a, b) => selector_text(a) + selector_text(b),
        Swizzle::D3(a, b, c) => selector_text(a) + selector_text(b) + selector_text(c),
        Swizzle::D4(a, b, c, d) => selector_text(a) + selector_text(b) + selector_text(c) + selector_text(d),
    }
}

fn write_selector(out: &mut String, s: SwizzleSelector)
    ensures
        final(out)@ == old(out)@ + selector_text(s),
{
    match s {
        SwizzleSelector::X => out.append("x"),
        SwizzleSelector::Y => out.append("y"),
        SwizzleSelector::Z => out.append("z"),
        SwizzleSelector::W => out.append("w"),
    }
}

fn write_swizzle(out: &mut String, s: Swizzle)
    ensures
        final(out)@ == old(out)@ + swizzle_text(s),
{
    match s {
        Swizzle::D1(a) => write_selector(out, a),
        Swizzle::D2(a, b) => {
            write_selector(out, a);
            write_selector(out, b);
        },
        Swizzle::D3(a, b, c) => {
            write_selector(out, a);
            write_selector(out, b);
            write_selector(out, c);
        },
        Swizzle::D4(a, b, c, d) => {
            write_selector(out, a);
            write_selector(out, b);
            write_selector(out, c);
            write_selector(out, d);
        },
    }
    proof {
        assert(final(out)@ =~= old(out)@ + swizzle_text(s));
    }
}

/// The literal `v`.
pub open spec fn int_lit_text(v: i32) -> Seq<char> {
    int_text(v as int)
}

fn write_int_lit(out: &mut String, v: i32)
    ensures
        final(out)@ == old(out)@ + int_lit_text(v),
{
    write_int(out, v);
    proof {
        assert(final(out)@ =~= old(out)@ + int_lit_text(v));
    }
}

/// The literal `v`.
pub open spec fn uint_lit_text(v: u32) -> Seq<char> {
    (decimal(v as nat) + "u"@)
}

fn write_uint_lit(out: &mut String, v: u32)
    ensures
        final(out)@ == old(out)@ + uint_lit_text(v),
{
    { write_decimal(out, v as u64); out.append("u"); };
    proof {
        assert(final(out)@ =~= old(out)@ + uint_lit_text(v));
    }
}

/// The literal `v`.
pub open spec fn float_lit_text(v: Float) -> Seq<char> {
    ("uintBitsToFloat("@ + decimal(v.bits as nat) + "u)"@)
}

fn write_float_lit(out: &mut String, v: Float)
    ensures
        final(out)@ == old(out)@ + float_lit_text(v),
{
    { out.append("uintBitsToFloat("); write_decimal(out, v.bits as u64); out.append("u)"); };
    proof {
        assert(final(out)@ =~= old(out)@ + float_lit_text(v));
    }
}

/// The literal `v`.
pub open spec fn bool_lit_text(v: bool) -> Seq<char> {
    (if v { "true"@ } else { "false"@ })
}

fn write_bool_lit(out: &mut String, v: bool)
    ensures
        final(out)@ == old(out)@ + bool_lit_text(v),
{
    out.append(if v { "true" } else { "false" });
    proof {
        assert(final(out)@ =~= old(out)@ + bool_lit_text(v));
    }
}

/// The constructor of the vector literal `v`.
pub open spec fn int_vec2_text(v: [i32; 2]) -> Seq<char> {
    "ivec2("@ + int_lit_text(v[0]) + ", "@ + int_lit_text(v[1]) + ")"@
}

fn write_int_vec2(out: &mut String, v: [i32; 2])
    ensures
        final(out)@ == old(out)@ + int_vec2_text(v),
{
    out.append("ivec2(");
    write_int_lit(out, v[0]);
    out.append(", ");
    write_int_lit(out, v[1]);
    out.append(")");
    proof {
        assert(final(out)@ =~= old(out)@ + int_vec2_text(v));
    }
}

/// The constructor of the vector literal `v`.
pub open spec fn uint_vec2_text(v: [u32; 2]) -> Seq<char> {
    "uvec2("@ + uint_lit_text(v[0]) + ", "@ + uint_lit_text(v[1]) + ")"@
}

fn write_uint_vec2(out: &mut String, v: [u32; 2])
    ensures
        final(out)@ == old(out)@ + uint_vec2_text(v),
{
    out.append("uvec2(");
    write_uint_lit(out, v[0]);
    out.append(", ");
    write_uint_lit(out, v[1]);
    out.append(")");
    proof {
        assert(final(out)@ =~= old(out)@ + uint_vec2_text(v));
    }
}

/// The constructor of the vector literal `v`.
pub open spec fn float_vec2_text(v: [Float; 2]) -> Seq<char> {
    "vec2("@ + float_lit_text(v[0]) + ", "@ + float_lit_text(v[1]) + ")"@
}

fn write_float_vec2(out: &mut String, v: [Float; 2])
    ensures
        final(out)@ == old(out)@ + float_vec2_text(v),
{
    out.append("vec2(");
    write_float_lit(out, v[0]);
    out.append(", ");
    write_float_lit(out, v[1]);
    out.append(")");
    proof {
        assert(final(out)@ =~= old(out)@ + float_vec2_text(v));
    }
}

/// The constructor of the vector literal `v`.
pub open spec fn bool_vec2_text(v: [bool; 2]) -> Seq<char> {
    "bvec2("@ + bool_lit_text(v[0]) + ", "@ + bool_lit_text(v[1]) + ")"@
}

fn write_bool_vec2(out: &mut String, v: [bool; 2])
    ensures
        final(out)@ == old(out)@ + bool_vec2_text(v),
{
    out.append("bvec2(");
    write_bool_lit(out, v[0]);
    out.append(", ");
    write_bool_lit(out, v[1]);
    out.append(")");
    proof {
        assert(final(out)@ =~= old(out)@ + bool_vec2_text(v));
    }
}

/// The constructor of the vector literal `v`.
pub open spec fn int_vec3_text(v: [i32; 3]) -> Seq<char> {
    "ivec3("@ + int_lit_text(v[0]) + ", "@ + int_lit_text(v[1]) + ", "@ + int_lit_text(v[2]) + ")"@
}

fn write_int_vec3(out: &mut String, v: [i32; 3])
    ensures
        final(out)@ == old(out)@ + int_vec3_text(v),
{
    out.append("ivec3(");
    write_int_lit(out, v[0]);
    out.append(", ");
    write_int_lit(out, v[1]);
    out.append(", ");
    write_int_lit(out, v[2]);
    out.append(")");
    proof {
        assert(final(out)@ =~= old(out)@ + int_vec3_text(v));
    }
}

/// The constructor of the vector literal `v`.
pub open spec fn uint_vec3_text(v: [u32; 3]) -> Seq<char> {
    "uvec3("@ + uint_lit_text(v[0]) + ", "@ + uint_lit_text(v[1]) + ", "@ + uint_lit_text(v[2]) + ")"@
}

fn write_uint_vec3(out: &mut String, v: [u32; 3])
    ensures
        final(out)@ == old(out)@ + uint_vec3_text(v),
{
    out.append("uvec3(");
    write_uint_lit(out, v[0]);
    out.append(", ");
    write_uint_lit(out, v[1]);
    out.append(", ");
    write_uint_lit(out, v[2]);
    out.append(")");
    proof {
        assert(final(out)@ =~= old(out)@ + uint_vec3_text(v));
    }
}

/// The constructor of the vector literal `v`.
pub open spec fn float_vec3_text(v: [Float; 3]) -> Seq<char> {
    "vec3("@ + float_lit_text(v[0]) + ", "@ + float_lit_text(v[1]) + ", "@ + float_lit_text(v[2]) + ")"@
}

fn write_float_vec3(out: &mut String, v: [Float; 3])
    ensures
        final(out)@ == old(out)@ + float_vec3_text(v),
{
    out.append("vec3(");
    write_float_lit(out, v[0]);
    out.append(", ");
    write_float_lit(out, v[1]);
    out.append(", ");
    write_float_lit(out, v[2]);
    out.append(")");
    proof {
        assert(final(out)@ =~= old(out)@ + float_vec3_text(v));
    }
}

/// The constructor of the vector literal `v`.
pub open spec fn bool_vec3_text(v: [bool; 3]) -> Seq<char> {
    "bvec3("@ + bool_lit_text(v[0]) + ", "@ + bool_lit_text(v[1]) + ", "@ + bool_lit_text(v[2]) + ")"@
}

fn write_bool_vec3(out: &mut String, v: [bool; 3])
    ensures
        final(out)@ == old(out)@ + bool_vec3_text(v),
{
    out.append("bvec3(");
    write_bool_lit(out, v[0]);
    out.append(", ");
    write_bool_lit(out, v[1]);
    out.append(", ");
    write_bool_lit(out, v[2]);
    out.append(")");
    proof {
        assert(final(out)@ =~= old(out)@ + bool_vec3_text(v));
    }
}

/// The constructor of the vector literal `v`.
pub open spec fn int_vec4_text(v: [i32; 4]) -> Seq<char> {
    "ivec4("@ + int_lit_text(v[0]) + ", "@ + int_lit_text(v[1]) + ", "@ + int_lit_text(v[2]) + ", "@ + int_lit_text(v[3]) + ")"@
}

fn write_int_vec4(out: &mut String, v: [i32; 4])
    ensures
        final(out)@ == old(out)@ + int_vec4_text(v),
{
    out.append("ivec4(");
    write_int_lit(out, v[0]);
    out.append(", ");
    write_int_lit(out, v[1]);
    out.append(", ");
    write_int_lit(out, v[2]);
    out.append(", ");
    write_int_lit(out, v[3]);
    out.append(")");
    proof {
        assert(final(out)@ =~= old(out)@ + int_vec4_text(v));
    }
}

/// The constructor of the vector literal `v`.
pub open spec fn uint_vec4_text(v: [u32; 4]) -> Seq<char> {
    "uvec4("@ + uint_lit_text(v[0]) + ", "@ + uint_lit_text(v[1]) + ", "@ + uint_lit_text(v[2]) + ", "@ + uint_lit_text(v[3]) + ")"@
}

fn write_uint_vec4(out: &mut String, v: [u32; 4])
    ensures
        final(out)@ == old(out)@ + uint_vec4_text(v),
{
    out.append("uvec4(");
    write_uint_lit(out, v[0]);
    out.append(", ");
    write_uint_lit(out, v[1]);
    out.append(", ");
    write_uint_lit(out, v[2]);
    out.append(", ");
    write_uint_lit(out, v[3]);
    out.append(")");
    proof {
        assert(final(out)@ =~= old(out)@ + uint_vec4_text(v));
    }
}

/// The constructor of the vector literal `v`.
pub open spec fn float_vec4_text(v: [Float; 4]) -> Seq<char> {
    "vec4("@ + float_lit_text(v[0]) + ", "@ + float_lit_text(v[1]) + ", "@ + float_lit_text(v[2]) + ", "@ + float_lit_text(v[3]) + ")"@
}

fn write_float_vec4(out: &mut String, v: [Float; 4])
    ensures
        final(out)@ == old(out)@ + float_vec4_text(v),
{
    out.append("vec4(");
    write_float_lit(out, v[0]);
    out.append(", ");
    write_float_lit(out, v[1]);
    out.append(", ");
    write_float_lit(out, v[2]);
    out.append(", ");
    write_float_lit(out, v[3]);
    out.append(")");
    proof {
        assert(final(out)@ =~= old(out)@ + float_vec4_text(v));
    }
}

/// The constructor of the vector literal `v`.
pub open spec fn bool_vec4_text(v: [bool; 4]) -> Seq<char> {
    "bvec4("@ + bool_lit_text(v[0]) + ", "@ + bool_lit_text(v[1]) + ", "@ + bool_lit_text(v[2]) + ", "@ + bool_lit_text(v[3]) + ")"@
}

fn write_bool_vec4(out: &mut String, v: [bool; 4])
    ensures
        final(out)@ == old(out)@ + bool_vec4_text(v),
{
    out.append("bvec4(");
    write_bool_lit(out, v[0]);
    out.append(", ");
    write_bool_lit(out, v[1]);
    out.append(", ");
    write_bool_lit(out, v[2]);
    out.append(", ");
    write_bool_lit(out, v[3]);
    out.append(")");
    proof {
        assert(final(out)@ =~= old(out)@ + bool_vec4_text(v));
    }
}

/// The texts of the expressions `es`, separated by commas.
pub open spec fn exprs_text(es: Seq<ExprView>) -> Seq<char>
    decreases es,
{
    if es.len() == 0 {
        Seq::empty()
    } else if es.len() == 1 {
        expr_text(es[0])
    } else {
        exprs_text(es.drop_last()) + ", "@ + expr_text(es.last())
    }
}

/// The text of an expression.
pub open spec fn expr_text(e: ExprView) -> Seq<char>
    decreases e,
{
    match e {
        ExprView::LitInt(v) => int_lit_text(v),
        ExprView::LitUInt(v) => uint_lit_text(v),
        ExprView::LitFloat(v) => float_lit_text(v),
        ExprView::LitBool(v) => bool_lit_text(v),
        ExprView::LitInt2(v) => int_vec2_text(v),
        ExprView::LitUInt2(v) => uint_vec2_text(v),
        ExprView::LitFloat2(v) => float_vec2_text(v),
        ExprView::LitBool2(v) => bool_vec2_text(v),
        ExprView::LitInt3(v) => int_vec3_text(v),
        ExprView::LitUInt3(v) => uint_vec3_text(v),
        ExprView::LitFloat3(v) => float_vec3_text(v),
        ExprView::LitBool3(v) => bool_vec3_text(v),
        ExprView::LitInt4(v) => int_vec4_text(v),
        ExprView::LitUInt4(v) => uint_vec4_text(v),
        ExprView::LitFloat4(v) => float_vec4_text(v),
        ExprView::LitBool4(v) => bool_vec4_text(v),
        ExprView::Array(t, es) => type_text(t) + "("@ + exprs_text(es) + ")"@,
        ExprView::MutVar(h) => handle_text(h),
        ExprView::ImmutBuiltIn(b) => builtin_name(b)@,
        ExprView::Not(a) => "!"@ + wrap(expr_text(*a), prec(*a) < 17),
        ExprView::Neg(a) => "-"@ + wrap(expr_text(*a), prec(*a) < 17),
        ExprView::Mul(a, b) => infix_text(" * "@, 14, prec(*a), expr_text(*a), prec(*b), expr_text(*b)),
        ExprView::Div(a, b) => infix_text(" / "@, 14, prec(*a), expr_text(*a), prec(*b), expr_text(*b)),
        ExprView::Rem(a, b) => infix_text(" % "@, 14, prec(*a), expr_text(*a), prec(*b), expr_text(*b)),
        ExprView::Add(a, b) => infix_text(" + "@, 13, prec(*a), expr_text(*a), prec(*b), expr_text(*b)),
        ExprView::Sub(a, b) => infix_text(" - "@, 13, prec(*a), expr_text(*a), prec(*b), expr_text(*b)),
        ExprView::Shl(a, b) => infix_text(" << "@, 12, prec(*a), expr_text(*a), prec(*b), expr_text(*b)),
        ExprView::Shr(a, b) => infix_text(" >> "@, 12, prec(*a), expr_text(*a), prec(*b), expr_text(*b)),
        ExprView::Lt(a, b) => infix_text(" < "@, 11, prec(*a), expr_text(*a), prec(*b), expr_text(*b)),
        ExprView::Lte(a, b) => infix_text(" <= "@, 11, prec(*a), expr_text(*a), prec(*b), expr_text(*b)),
        ExprView::Gt(a, b) => infix_text(" > "@, 11, prec(*a), expr_text(*a), prec(*b), expr_text(*b)),
        ExprView::Gte(a, b) => infix_text(" >= "@, 11, prec(*a), expr_text(*a), prec(*b), expr_text(*b)),
        ExprView::Eq(a, b) => infix_text(" == "@, 10, prec(*a), expr_text(*a), prec(*b), expr_text(*b)),
        ExprView::Neq(a, b) => infix_text(" != "@, 10, prec(*a), expr_text(*a), prec(*b), expr_text(*b)),
        ExprView::BitAnd(a, b) => infix_text(" & "@, 9, prec(*a), expr_text(*a), prec(*b), expr_text(*b)),
        ExprView::BitXor(a, b) => infix_text(" ^ "@, 8, prec(*a), expr_text(*a), prec(*b), expr_text(*b)),
        ExprView::BitOr(a, b) => infix_text(" | "@, 7, prec(*a), expr_text(*a), prec(*b), expr_text(*b)),
        ExprView::And(a, b) => infix_text(" && "@, 6, prec(*a), expr_text(*a), prec(*b), expr_text(*b)),
        ExprView::Xor(a, b) => infix_text(" ^^ "@, 5, prec(*a), expr_text(*a), prec(*b), expr_text(*b)),
        ExprView::Or(a, b) => infix_text(" || "@, 4, prec(*a), expr_text(*a), prec(*b), expr_text(*b)),
        ExprView::FunCall(h, args) => fun_text(h) + "("@ + exprs_text(args) + ")"@,
        ExprView::Swizzle(a, s) => wrap(expr_text(*a), prec(*a) < 17) + "."@ + swizzle_text(s),
        ExprView::Field { object, field } => wrap(expr_text(*object), prec(*object) < 17) + "."@ + expr_text(*field),
        ExprView::ArrayLookup { object, index } => wrap(expr_text(*object), prec(*object) < 17) + "["@ + expr_text(*index) + "]"@,
    }
}

/// Whether `e` is a scalar or vector literal.
pub open spec fn is_scalar_or_vector_literal(e: ExprView) -> bool {
    e is LitInt
    || e is LitUInt
    || e is LitFloat
    || e is LitBool
    || e is LitInt2
    || e is LitUInt2
    || e is LitFloat2
    || e is LitBool2
    || e is LitInt3
    || e is LitUInt3
    || e is LitFloat3
    || e is LitBool3
    || e is LitInt4
    || e is LitUInt4
    || e is LitFloat4
    || e is LitBool4
}

fn is_literal(e: &ErasedExpr) -> (r: bool)
    ensures
        r == is_scalar_or_vector_literal(e@),
{
    match e {
        ErasedExpr::LitInt(_) => true,
        ErasedExpr::LitUInt(_) => true,
        ErasedExpr::LitFloat(_) => true,
        ErasedExpr::LitBool(_) => true,
        ErasedExpr::LitInt2(_) => true,
        ErasedExpr::LitUInt2(_) => true,
        ErasedExpr::LitFloat2(_) => true,
        ErasedExpr::LitBool2(_) => true,
        ErasedExpr::LitInt3(_) => true,
        ErasedExpr::LitUInt3(_) => true,
        ErasedExpr::LitFloat3(_) => true,
        ErasedExpr::LitBool3(_) => true,
        ErasedExpr::LitInt4(_) => true,
        ErasedExpr::LitUInt4(_) => true,
        ErasedExpr::LitFloat4(_) => true,
        ErasedExpr::LitBool4(_) => true,
        _ => false,
    }
}

fn write_wrapped(out: &mut String, e: &ErasedExpr, paren: bool)
    ensures
        final(out)@ == old(out)@ + wrap(expr_text(e@), paren),
    decreases e, 2nat,
{
    if paren {
        out.append("(");
        write_expr(out, e);
        out.append(")");
        proof {
            assert(final(out)@ =~= old(out)@ + wrap(expr_text(e@), paren));
        }
    } else {
        write_expr(out, e);
    }
}

fn write_exprs(out: &mut String, e: &ErasedExpr, es: &Vec<ErasedExpr>)
    requires
        (e is FunCall && e->FunCall_1 == *es) || (e is Array && e->Array_1 == *es),
    ensures
        final(out)@ == old(out)@ + exprs_text(Seq::new(es@.len(), |i: int| es@[i]@)),
    decreases e, 0nat,
{
    let ghost vs = Seq::new(es@.len(), |i: int| es@[i]@);
    let mut i: usize = 0;
    while i < es.len()
        invariant
            i <= es@.len(),
            vs == Seq::new(es@.len(), |i: int| es@[i]@),
            (e is FunCall && e->FunCall_1 == *es) || (e is Array && e->Array_1 == *es),
            out@ == old(out)@ + exprs_text(vs.subrange(0, i as int)),
        decreases es@.len() - i,
    {
        if i > 0 {
            out.append(", ");
        }
        proof {
            if e is FunCall {
                lemma_call_arg_decreases(*e, i as int);
            } else {
                lemma_array_elem_decreases(*e, i as int);
            }
        }
        write_expr(out, &es[i]);
        proof {
            assert(vs.subrange(0, i + 1).drop_last() =~= vs.subrange(0, i as int));
            assert(vs.subrange(0, i + 1).last() == es@[i as int]@);
            if i == 0 {
                assert(vs.subrange(0, 0) =~= Seq::<ExprView>::empty());
            }
            assert(out@ =~= old(out)@ + exprs_text(vs.subrange(0, i + 1)));
        }
        i = i + 1;
    }
    proof {
        assert(vs.subrange(0, i as int) =~= vs);
    }
}


fn write_lit_int(out: &mut String, e: &ErasedExpr)
    requires
        e is LitInt,
    ensures
        final(out)@ == old(out)@ + expr_text(e@),
{
    match e {
        ErasedExpr::LitInt(v) => write_int_lit(out, *v),
        _ => {},
    }
}

fn write_lit_uint(out: &mut String, e: &ErasedExpr)
    requires
        e is LitUInt,
    ensures
        final(out)@ == old(out)@ + expr_text(e@),
{
    match e {
        ErasedExpr::LitUInt(v) => write_uint_lit(out, *v),
        _ => {},
    }
}

fn write_lit_float(out: &mut String, e: &ErasedExpr)
    requires
        e is LitFloat,
    ensures
        final(out)@ == old(out)@ + expr_text(e@),
{
    match e {
        ErasedExpr::LitFloat(v) => write_float_lit(out, *v),
        _ => {},
    }
}

fn write_lit_bool(out: &mut String, e: &ErasedExpr)
    requires
        e is LitBool,
    ensures
        final(out)@ == old(out)@ + expr_text(e@),
{
    match e {
        ErasedExpr::LitBool(v) => write_bool_lit(out, *v),
        _ => {},
    }
}

fn write_lit_int2(out: &mut String, e: &ErasedExpr)
    requires
        e is LitInt2,
    ensures
        final(out)@ == old(out)@ + expr_text(e@),
{
    match e {
        ErasedExpr::LitInt2(v) => write_int_vec2(out, *v),
        _ => {},
    }
}

fn write_lit_uint2(out: &mut String, e: &ErasedExpr)
    requires
        e is LitUInt2,
    ensures
        final(out)@ == old(out)@ + expr_text(e@),
{
    match e {
        ErasedExpr::LitUInt2(v) => write_uint_vec2(out, *v),
        _ => {},
    }
}

fn write_lit_float2(out: &mut String, e: &ErasedExpr)
    requires
        e is LitFloat2,
    ensures
        final(out)@ == old(out)@ + expr_text(e@),
{
    match e {
        ErasedExpr::LitFloat2(v) => write_float_vec2(out, *v),
        _ => {},
    }
}

fn write_lit_bool2(out: &mut String, e: &ErasedExpr)
    requires
        e is LitBool2,
    ensures
        final(out)@ == old(out)@ + expr_text(e@),
{
    match e {
        ErasedExpr::LitBool2(v) => write_bool_vec2(out, *v),
        _ => {},
    }
}

fn write_lit_int3(out: &mut String, e: &ErasedExpr)
    requires
        e is LitInt3,
    ensures
        final(out)@ == old(out)@ + expr_text(e@),
{
    match e {
        ErasedExpr::LitInt3(v) => write_int_vec3(out, *v),
        _ => {},
    }
}

fn write_lit_uint3(out: &mut String, e: &ErasedExpr)
    requires
        e is LitUInt3,
    ensures
        final(out)@ == old(out)@ + expr_text(e@),
{
    match e {
        ErasedExpr::LitUInt3(v) => write_uint_vec3(out, *v),
        _ => {},
    }
}

fn write_lit_float3(out: &mut String, e: &ErasedExpr)
    requires
        e is LitFloat3,
    ensures
        final(out)@ == old(out)@ + expr_text(e@),
{
    match e {
        ErasedExpr::LitFloat3(v) => write_float_vec3(out, *v),
        _ => {},
    }
}

fn write_lit_bool3(out: &mut String, e: &ErasedExpr)
    requires
        e is LitBool3,
    ensures
        final(out)@ == old(out)@ + expr_text(e@),
{
    match e {
        ErasedExpr::LitBool3(v) => write_bool_vec3(out, *v),
        _ => {},
    }
}

fn write_lit_int4(out: &mut String, e: &ErasedExpr)
    requires
        e is LitInt4,
    ensures
        final(out)@ == old(out)@ + expr_text(e@),
{
    match e {
        ErasedExpr::LitInt4(v) => write_int_vec4(out, *v),
        _ => {},
    }
}

fn write_lit_uint4(out: &mut String, e: &ErasedExpr)
    requires
        e is LitUInt4,
    ensures
        final(out)@ == old(out)@ + expr_text(e@),
{
    match e {
        ErasedExpr::LitUInt4(v) => write_uint_vec4(out, *v),
        _ => {},
    }
}

fn write_lit_float4(out: &mut String, e: &ErasedExpr)
    requires
        e is LitFloat4,
    ensures
        final(out)@ == old(out)@ + expr_text(e@),
{
    match e {
        ErasedExpr::LitFloat4(v) => write_float_vec4(out, *v),
        _ => {},
    }
}

fn write_lit_bool4(out: &mut String, e: &ErasedExpr)
    requires
        e is LitBool4,
    ensures
        final(out)@ == old(out)@ + expr_text(e@),
{
    match e {
        ErasedExpr::LitBool4(v) => write_bool_vec4(out, *v),
        _ => {},
    }
}

fn write_literal(out: &mut String, e: &ErasedExpr)
    requires
        is_scalar_or_vector_literal(e@),
    ensures
        final(out)@ == old(out)@ + expr_text(e@),
{
    match e {
        ErasedExpr::LitInt(_) => write_lit_int(out, e),
        ErasedExpr::LitUInt(_) => write_lit_uint(out, e),
        ErasedExpr::LitFloat(_) => write_lit_float(out, e),
        ErasedExpr::LitBool(_) => write_lit_bool(out, e),
        ErasedExpr::LitInt2(_) => write_lit_int2(out, e),
        ErasedExpr::LitUInt2(_) => write_lit_uint2(out, e),
        ErasedExpr::LitFloat2(_) => write_lit_float2(out, e),
        ErasedExpr::LitBool2(_) => write_lit_bool2(out, e),
        ErasedExpr::LitInt3(_) => write_lit_int3(out, e),
        ErasedExpr::LitUInt3(_) => write_lit_uint3(out, e),
        ErasedExpr::LitFloat3(_) => write_lit_float3(out, e),
        ErasedExpr::LitBool3(_) => write_lit_bool3(out, e),
        ErasedExpr::LitInt4(_) => write_lit_int4(out, e),
        ErasedExpr::LitUInt4(_) => write_lit_uint4(out, e),
        ErasedExpr::LitFloat4(_) => write_lit_float4(out, e),
        ErasedExpr::LitBool4(_) => write_lit_bool4(out, e),
        _ => {},
    }
}

/// Appends the text of `e`.
#[verifier::rlimit(100)]
#[verifier::spinoff_prover]
pub fn write_expr(out: &mut String, e: &ErasedExpr)
    ensures
        final(out)@ == old(out)@ + expr_text(e@),
    decreases e, 1nat,
{
    if is_literal(e) {
        write_literal(out, e);
        return;
    }
    match e {
        ErasedExpr::Array(t, es) => {
            write_type(out, t);
            out.append("(");
            write_exprs(out, e, es);
            out.append(")");
            proof {
                assert(e@->Array_1 =~= Seq::new(es@.len(), |i: int| es@[i]@));
                assert(final(out)@ =~= old(out)@ + expr_text(e@));
            }
        },
        ErasedExpr::MutVar(h) => write_handle(out, *h),
        ErasedExpr::ImmutBuiltIn(b) => out.append(builtin_str(*b)),
        ErasedExpr::Not(a) => {
            out.append("!");
            let p = prec_of(a);
            write_wrapped(out, a, p < 17);
            proof {
                assert(final(out)@ =~= old(out)@ + expr_text(e@));
            }
        },
        ErasedExpr::Neg(a) => {
            out.append("-");
            let p = prec_of(a);
            write_wrapped(out, a, p < 17);
            proof {
                assert(final(out)@ =~= old(out)@ + expr_text(e@));
            }
        },
        ErasedExpr::Mul(a, b) => {
            let pa = prec_of(a);
            let pb = prec_of(b);
            write_wrapped(out, a, pa < 14);
            out.append(" * ");
            write_wrapped(out, b, pb <= 14);
            proof {
                assert(final(out)@ =~= old(out)@ + expr_text(e@));
            }
        },
        ErasedExpr::Div(a, b) => {
            let pa = prec_of(a);
            let pb = prec_of(b);
            write_wrapped(out, a, pa < 14);
            out.append(" / ");
            write_wrapped(out, b, pb <= 14);
            proof {
                assert(final(out)@ =~= old(out)@ + expr_text(e@));
            }
        },
        ErasedExpr::Rem(a, b) => {
            let pa = prec_of(a);
            let pb = prec_of(b);
            write_wrapped(out, a, pa < 14);
            out.append(" % ");
            write_wrapped(out, b, pb <= 14);
            proof {
                assert(final(out)@ =~= old(out)@ + expr_text(e@));
            }
        },
        ErasedExpr::Add(a, b) => {
            let pa = prec_of(a);
            let pb = prec_of(b);
            write_wrapped(out, a, pa < 13);
            out.append(" + ");
            write_wrapped(out, b, pb <= 13);
            proof {
                assert(final(out)@ =~= old(out)@ + expr_text(e@));
            }
        },
        ErasedExpr::Sub(a, b) => {
            let pa = prec_of(a);
            let pb = prec_of(b);
            write_wrapped(out, a, pa < 13);
            out.append(" - ");
            write_wrapped(out, b, pb <= 13);
            proof {
                assert(final(out)@ =~= old(out)@ + expr_text(e@));
            }
        },
        ErasedExpr::Shl(a, b) => {
            let pa = prec_of(a);
            let pb = prec_of(b);
            write_wrapped(out, a, pa < 12);
            out.append(" << ");
            write_wrapped(out, b, pb <= 12);
            proof {
                assert(final(out)@ =~= old(out)@ + expr_text(e@));
            }
        },
        ErasedExpr::Shr(a, b) => {
            let pa = prec_of(a);
            let pb = prec_of(b);
            write_wrapped(out, a, pa < 12);
            out.append(" >> ");
            write_wrapped(out, b, pb <= 12);
            proof {
                assert(final(out)@ =~= old(out)@ + expr_text(e@));
            }
        },
        ErasedExpr::Lt(a, b) => {
            let pa = prec_of(a);
            let pb = prec_of(b);
            write_wrapped(out, a, pa < 11);
            out.append(" < ");
            write_wrapped(out, b, pb <= 11);
            proof {
                assert(final(out)@ =~= old(out)@ + expr_text(e@));
            }
        },
        ErasedExpr::Lte(a, b) => {
            let pa = prec_of(a);
            let pb = prec_of(b);
            write_wrapped(out, a, pa < 11);
            out.append(" <= ");
            write_wrapped(out, b, pb <= 11);
            proof {
                assert(final(out)@ =~= old(out)@ + expr_text(e@));
            }
        },
        ErasedExpr::Gt(a, b) => {
            let pa = prec_of(a);
            let pb = prec_of(b);
            write_wrapped(out, a, pa < 11);
            out.append(" > ");
            write_wrapped(out, b, pb <= 11);
            proof {
                assert(final(out)@ =~= old(out)@ + expr_text(e@));
            }
        },
        ErasedExpr::Gte(a, b) => {
            let pa = prec_of(a);
            let pb = prec_of(b);
            write_wrapped(out, a, pa < 11);
            out.append(" >= ");
            write_wrapped(out, b, pb <= 11);
            proof {
                assert(final(out)@ =~= old(out)@ + expr_text(e@));
            }
        },
        ErasedExpr::Eq(a, b) => {
            let pa = prec_of(a);
            let pb = prec_of(b);
            write_wrapped(out, a, pa < 10);
            out.append(" == ");
            write_wrapped(out, b, pb <= 10);
            proof {
                assert(final(out)@ =~= old(out)@ + expr_text(e@));
            }
        },
        ErasedExpr::Neq(a, b) => {
            let pa = prec_of(a);
            let pb = prec_of(b);
            write_wrapped(out, a, pa < 10);
            out.append(" != ");
            write_wrapped(out, b, pb <= 10);
            proof {
                assert(final(out)@ =~= old(out)@ + expr_text(e@));
            }
        },
        ErasedExpr::BitAnd(a, b) => {
            let pa = prec_of(a);
            let pb = prec_of(b);
            write_wrapped(out, a, pa < 9);
            out.append(" & ");
            write_wrapped(out, b, pb <= 9);
            proof {
                assert(final(out)@ =~= old(out)@ + expr_text(e@));
            }
        },
        ErasedExpr::BitXor(a, b) => {
            let pa = prec_of(a);
            let pb = prec_of(b);
            write_wrapped(out, a, pa < 8);
            out.append(" ^ ");
            write_wrapped(out, b, pb <= 8);
            proof {
                assert(final(out)@ =~= old(out)@ + expr_text(e@));
            }
        },
        ErasedExpr::BitOr(a, b) => {
            let pa = prec_of(a);
            let pb = prec_of(b);
            write_wrapped(out, a, pa < 7);
            out.append(" | ");
            write_wrapped(out, b, pb <= 7);
            proof {
                assert(final(out)@ =~= old(out)@ + expr_text(e@));
            }
        },
        ErasedExpr::And(a, b) => {
            let pa = prec_of(a);
            let pb = prec_of(b);
            write_wrapped(out, a, pa < 6);
            out.append(" && ");
            write_wrapped(out, b, pb <= 6);
            proof {
                assert(final(out)@ =~= old(out)@ + expr_text(e@));
            }
        },
        ErasedExpr::Xor(a, b) => {
            let pa = prec_of(a);
            let pb = prec_of(b);
            write_wrapped(out, a, pa < 5);
            out.append(" ^^ ");
            write_wrapped(out, b, pb <= 5);
            proof {
                assert(final(out)@ =~= old(out)@ + expr_text(e@));
            }
        },
        ErasedExpr::Or(a, b) => {
            let pa = prec_of(a);
            let pb = prec_of(b);
            write_wrapped(out, a, pa < 4);
            out.append(" || ");
            write_wrapped(out, b, pb <= 4);
            proof {
                assert(final(out)@ =~= old(out)@ + expr_text(e@));
            }
        },
        ErasedExpr::FunCall(h, args) => {
            write_fun_name(out, *h);
            out.append("(");
            write_exprs(out, e, args);
            out.append(")");
            proof {
                assert(e@->FunCall_1 =~= Seq::new(args@.len(), |i: int| args@[i]@));
                assert(final(out)@ =~= old(out)@ + expr_text(e@));
            }
        },
        ErasedExpr::Swizzle(a, s) => {
            let p = prec_of(a);
            write_wrapped(out, a, p < 17);
            out.append(".");
            write_swizzle(out, *s);
            proof {
                assert(final(out)@ =~= old(out)@ + expr_text(e@));
            }
        },
        ErasedExpr::Field { object, field } => {
            let p = prec_of(object);
            write_wrapped(out, object, p < 17);
            out.append(".");
            write_expr(out, field);
            proof {
                assert(final(out)@ =~= old(out)@ + expr_text(e@));
            }
        },
        ErasedExpr::ArrayLookup { object, index } => {
            let p = prec_of(object);
            write_wrapped(out, object, p < 17);
            out.append("[");
            write_expr(out, index);
            out.append("]");
            proof {
                assert(final(out)@ =~= old(out)@ + expr_text(e@));
            }
        },
        _ => {},
    }
}

/// A `return` statement.
pub open spec fn return_text(r: ReturnView) -> Seq<char> {
    match r {
        ReturnView::Void => "return;\n"@,
        ReturnView::Expr(_, e) => "return "@ + expr_text(e) + ";\n"@,
    }
}

/// The initial value of a `for` loop: that of the induction variable's
/// declaration, which opens the loop block.
pub open spec fn loop_init(is: Seq<InstrView>, fallback: ExprView) -> ExprView {
    if is.len() > 0 && is[0] is VarDecl {
        is[0]->VarDecl_init_value
    } else {
        fallback
    }
}

/// The statements of a `for` loop's body: its block without the declaration of
/// the induction variable.
pub open spec fn loop_body(is: Seq<InstrView>) -> Seq<InstrView> {
    if is.len() > 0 && is[0] is VarDecl {
        is.subrange(1, is.len() as int)
    } else {
        is
    }
}

/// The text of a statement. A `for` loop is written
/// `for (T v = init; cond; v = next) { ... }`: its block opens with the declaration
/// of the induction variable, which the header takes over.
pub open spec fn instr_text(i: InstrView) -> Seq<char>
    decreases i, 0nat,
{
    match i {
        InstrView::VarDecl { ty, handle, init_value } => declarator_text(ty, handle_text(handle)) + " = "@
            + expr_text(init_value) + ";\n"@,
        InstrView::Return(r) => return_text(r),
        InstrView::Continue => "continue;\n"@,
        InstrView::Break => "break;\n"@,
        InstrView::If { condition, scope } => "if ("@ + expr_text(condition) + ") "@ + block_text(scope.instructions),
        InstrView::ElseIf { condition, scope } => "else if ("@ + expr_text(condition) + ") "@ + block_text(
            scope.instructions,
        ),
        InstrView::Else { scope } => "else "@ + block_text(scope.instructions),
        InstrView::For { init_ty, init_handle, init_expr, condition, post_expr, scope } => "for ("@
            + declarator_text(init_ty, handle_text(init_handle)) + " = "@ + expr_text(
            loop_init(scope.instructions, init_expr),
        ) + "; "@ + expr_text(condition) + "; "@ + handle_text(init_handle) + " = "@ + expr_text(post_expr)
            + ") "@ + block_text(loop_body(scope.instructions)),
        InstrView::While { condition, scope } => "while ("@ + expr_text(condition) + ") "@ + block_text(
            scope.instructions,
        ),
        InstrView::MutateVar { var, expr } => expr_text(var) + " = "@ + expr_text(expr) + ";\n"@,
    }
}

/// Statements in braces.
pub open spec fn block_text(is: Seq<InstrView>) -> Seq<char>
    decreases is, 2nat,
{
    "{\n"@ + instrs_text(is) + "}\n"@
}

/// Statements, one after the other.
pub open spec fn instrs_text(is: Seq<InstrView>) -> Seq<char>
    decreases is, 1nat,
{
    if is.len() == 0 {
        Seq::empty()
    } else {
        instrs_text(is.drop_last()) + instr_text(is.last())
    }
}

/// The block held by a statement that opens one.
pub open spec fn block_of(i: ScopeInstr) -> ErasedScope {
    match i {
        ScopeInstr::If { scope, .. } => scope,
        ScopeInstr::ElseIf { scope, .. } => scope,
        ScopeInstr::Else { scope } => scope,
        ScopeInstr::For { scope, .. } => scope,
        ScopeInstr::While { scope, .. } => scope,
        _ => arbitrary(),
    }
}

/// Whether a statement opens a block.
pub open spec fn opens_block(i: ScopeInstr) -> bool {
    i is If || i is ElseIf || i is Else || i is For || i is While
}

proof fn lemma_block_decreases(i: ScopeInstr, k: int)
    requires
        opens_block(i),
        0 <= k < block_of(i).instructions@.len(),
    ensures
        decreases_to!(i => block_of(i).instructions@[k]),
{
    broadcast use vstd::std_specs::vec::axiom_vec_index_decreases;

    if i is If {
        assert(decreases_to!(i => i->If_scope));
        assert(decreases_to!(i->If_scope => i->If_scope.instructions));
        assert(decreases_to!(i->If_scope.instructions => i->If_scope.instructions[k]));
    } else if i is ElseIf {
        assert(decreases_to!(i => i->ElseIf_scope));
        assert(decreases_to!(i->ElseIf_scope => i->ElseIf_scope.instructions));
        assert(decreases_to!(i->ElseIf_scope.instructions => i->ElseIf_scope.instructions[k]));
    } else if i is Else {
        assert(decreases_to!(i => i->Else_scope));
        assert(decreases_to!(i->Else_scope => i->Else_scope.instructions));
        assert(decreases_to!(i->Else_scope.instructions => i->Else_scope.instructions[k]));
    } else if i is For {
        assert(decreases_to!(i => i->For_scope));
        assert(decreases_to!(i->For_scope => i->For_scope.instructions));
        assert(decreases_to!(i->For_scope.instructions => i->For_scope.instructions[k]));
    } else {
        assert(decreases_to!(i => i->While_scope));
        assert(decreases_to!(i->While_scope => i->While_scope.instructions));
        assert(decreases_to!(i->While_scope.instructions => i->While_scope.instructions[k]));
    }
}

/// The views of a sequence of statements.
pub open spec fn instr_views(is: Seq<ScopeInstr>) -> Seq<InstrView> {
    Seq::new(is.len(), |k: int| is[k]@)
}

fn write_instrs(out: &mut String, owner: &ScopeInstr, instrs: &Vec<ScopeInstr>, start: usize)
    requires
        opens_block(*owner),
        block_of(*owner).instructions == *instrs,
        start <= instrs@.len(),
    ensures
        final(out)@ == old(out)@ + instrs_text(instr_views(instrs@).subrange(start as int, instrs@.len() as int)),
    decreases owner, 0nat,
{
    let ghost vs = instr_views(instrs@);
    let mut k: usize = start;
    while k < instrs.len()
        invariant
            start <= k <= instrs@.len(),
            opens_block(*owner),
            block_of(*owner).instructions == *instrs,
            vs == instr_views(instrs@),
            out@ == old(out)@ + instrs_text(vs.subrange(start as int, k as int)),
        decreases instrs@.len() - k,
    {
        proof {
            lemma_block_decreases(*owner, k as int);
        }
        write_instr(out, &instrs[k]);
        proof {
            assert(vs.subrange(start as int, k + 1).drop_last() =~= vs.subrange(start as int, k as int));
            assert(vs.subrange(start as int, k + 1).last() == instrs@[k as int]@);
            assert(out@ =~= old(out)@ + instrs_text(vs.subrange(start as int, k + 1)));
        }
        k = k + 1;
    }
}

fn write_block(out: &mut String, owner: &ScopeInstr, instrs: &Vec<ScopeInstr>, start: usize)
    requires
        opens_block(*owner),
        block_of(*owner).instructions == *instrs,
        start <= instrs@.len(),
    ensures
        final(out)@ == old(out)@ + block_text(instr_views(instrs@).subrange(start as int, instrs@.len() as int)),
    decreases owner, 1nat,
{
    out.append("{\n");
    write_instrs(out, owner, instrs, start);
    out.append("}\n");
    proof {
        assert(final(out)@ =~= old(out)@ + block_text(
            instr_views(instrs@).subrange(start as int, instrs@.len() as int),
        ));
    }
}

fn write_return(out: &mut String, r: &ErasedReturn)
    ensures
        final(out)@ == old(out)@ + return_text(r@),
{
    match r {
        ErasedReturn::Void => out.append("return;\n"),
        ErasedReturn::Expr(_, e) => {
            out.append("return ");
            write_expr(out, e);
            out.append(";\n");
            proof {
                assert(final(out)@ =~= old(out)@ + return_text(r@));
            }
        },
    }
}

#[verifier::spinoff_prover]
fn write_for(out: &mut String, i: &ScopeInstr)
    requires
        i is For,
    ensures
        final(out)@ == old(out)@ + instr_text(i@),
    decreases i, 2nat,
{
    match i {
        ScopeInstr::For { init_ty, init_handle, init_expr, condition, post_expr, scope } => {
            let ghost is = i@->For_scope.instructions;
            assert(is == instr_views(scope.instructions@));
            out.append("for (");
            write_declarator(out, init_ty, *init_handle);
            out.append(" = ");
            let mut start: usize = 0;
            if scope.instructions.len() > 0 {
                match &scope.instructions[0] {
                    ScopeInstr::VarDecl { init_value, .. } => {
                        write_expr(out, init_value);
                        start = 1;
                    },
                    _ => write_expr(out, init_expr),
                }
            } else {
                write_expr(out, init_expr);
            }
            let ghost mid = out@;
            assert(mid == old(out)@ + "for ("@ + declarator_text(i@->For_init_ty, handle_text(*init_handle)) + " = "@
                + expr_text(loop_init(is, init_expr@)));
            out.append("; ");
            write_expr(out, condition);
            out.append("; ");
            write_handle(out, *init_handle);
            out.append(" = ");
            write_expr(out, post_expr);
            out.append(") ");
            write_block(out, i, &scope.instructions, start);
            proof {
                assert(instr_views(scope.instructions@).subrange(start as int, scope.instructions@.len() as int)
                    =~= loop_body(is));
                assert(final(out)@ =~= old(out)@ + instr_text(i@));
            }
        },
        _ => {},
    }
}

/// Appends the text of the statement `i`.
#[verifier::rlimit(100)]
#[verifier::spinoff_prover]
pub fn write_instr(out: &mut String, i: &ScopeInstr)
    ensures
        final(out)@ == old(out)@ + instr_text(i@),
    decreases i, 3nat,
{
    match i {
        ScopeInstr::VarDecl { ty, handle, init_value } => {
            write_declarator(out, ty, *handle);
            out.append(" = ");
            write_expr(out, init_value);
            out.append(";\n");
            proof {
                assert(final(out)@ =~= old(out)@ + instr_text(i@));
            }
        },
        ScopeInstr::Return(r) => write_return(out, r),
        ScopeInstr::Continue => out.append("continue;\n"),
        ScopeInstr::Break => out.append("break;\n"),
        ScopeInstr::If { condition, scope } => {
            out.append("if (");
            write_expr(out, condition);
            out.append(") ");
            write_block(out, i, &scope.instructions, 0);
            proof {
                assert(instr_views(scope.instructions@).subrange(0, scope.instructions@.len() as int)
                    =~= i@->If_scope.instructions);
                assert(final(out)@ =~= old(out)@ + instr_text(i@));
            }
        },
        ScopeInstr::ElseIf { condition, scope } => {
            out.append("else if (");
            write_expr(out, condition);
            out.append(") ");
            write_block(out, i, &scope.instructions, 0);
            proof {
                assert(instr_views(scope.instructions@).subrange(0, scope.instructions@.len() as int)
                    =~= i@->ElseIf_scope.instructions);
                assert(final(out)@ =~= old(out)@ + instr_text(i@));
            }
        },
        ScopeInstr::Else { scope } => {
            out.append("else ");
            write_block(out, i, &scope.instructions, 0);
            proof {
                assert(instr_views(scope.instructions@).subrange(0, scope.instructions@.len() as int)
                    =~= i@->Else_scope.instructions);
                assert(final(out)@ =~= old(out)@ + instr_text(i@));
            }
        },
        ScopeInstr::For { .. } => write_for(out, i),
        ScopeInstr::While { condition, scope } => {
            out.append("while (");
            write_expr(out, condition);
            out.append(") ");
            write_block(out, i, &scope.instructions, 0);
            proof {
                assert(instr_views(scope.instructions@).subrange(0, scope.instructions@.len() as int)
                    =~= i@->While_scope.instructions);
                assert(final(out)@ =~= old(out)@ + instr_text(i@));
            }
        },
        ScopeInstr::MutateVar { var, expr } => {
            write_expr(out, var);
            out.append(" = ");
            write_expr(out, expr);
            out.append(";\n");
            proof {
                assert(final(out)@ =~= old(out)@ + instr_text(i@));
            }
        },
    }
}

/// The return type of a function.
pub open spec fn ret_type_text(r: ReturnView) -> Seq<char> {
    match r {
        ReturnView::Void => "void"@,
        ReturnView::Expr(t, _) => type_text(t),
    }
}

/// The closing `return` of a function body that yields a value.
pub open spec fn final_return_text(r: ReturnView) -> Seq<char> {
    match r {
        ReturnView::Void => Seq::empty(),
        ReturnView::Expr(_, e) => "return "@ + expr_text(e) + ";\n"@,
    }
}

/// Parameter `k`, of type `t`.
pub open spec fn param_text(t: TypeView, k: nat) -> Seq<char> {
    prim_name(t.prim_ty)@ + " arg_"@ + decimal(k) + dims_text(t.array_dims)
}

/// The parameter list of a function with argument types `args`.
pub open spec fn params_text(args: Seq<TypeView>) -> Seq<char>
    decreases args.len(),
{
    if args.len() == 0 {
        Seq::empty()
    } else if args.len() == 1 {
        param_text(args[0], 0)
    } else {
        params_text(args.drop_last()) + ", "@ + param_text(args.last(), (args.len() - 1) as nat)
    }
}

/// A function body: its statements, then the return of its result.
pub open spec fn body_text(f: FunView) -> Seq<char> {
    "{\n"@ + instrs_text(f.scope.instructions) + final_return_text(f.ret) + "}\n"@
}

/// The text of a top-level declaration. User functions are named `fun_<n>`; the
/// entry point is `void main()`.
pub open spec fn decl_text(d: DeclView) -> Seq<char> {
    match d {
        DeclView::Main(f) => "void main() "@ + body_text(f),
        DeclView::FunDef(n, f) => ret_type_text(f.ret) + " fun_"@ + decimal(n as nat) + "("@ + params_text(f.args)
            + ") "@ + body_text(f),
        DeclView::Const(h, t, e) => "const "@ + declarator_text(t, handle_text(ScopedHandle::Global(h))) + " = "@
            + expr_text(e) + ";\n"@,
        DeclView::In(h, t) => "in "@ + declarator_text(t, handle_text(ScopedHandle::Global(h))) + ";\n"@,
        DeclView::Out(h, t) => "out "@ + declarator_text(t, handle_text(ScopedHandle::Global(h))) + ";\n"@,
    }
}

/// The declarations, in order.
pub open spec fn decls_text(ds: Seq<DeclView>) -> Seq<char>
    decreases ds.len(),
{
    if ds.len() == 0 {
        Seq::empty()
    } else {
        decls_text(ds.drop_last()) + decl_text(ds.last())
    }
}

/// The source text of a shader: its declarations in registration order.
pub open spec fn shader_text(s: ShaderView) -> Seq<char> {
    decls_text(s.decls)
}

fn write_params(out: &mut String, args: &Vec<Type>)
    ensures
        final(out)@ == old(out)@ + params_text(Seq::new(args@.len(), |k: int| args@[k]@)),
{
    let ghost vs = Seq::new(args@.len(), |k: int| args@[k]@);
    let mut k: usize = 0;
    while k < args.len()
        invariant
            k <= args@.len(),
            vs == Seq::new(args@.len(), |k: int| args@[k]@),
            out@ == old(out)@ + params_text(vs.subrange(0, k as int)),
        decreases args@.len() - k,
    {
        if k > 0 {
            out.append(", ");
        }
        out.append(prim_str(args[k].prim_ty));
        out.append(" arg_");
        write_decimal(out, k as u64);
        write_dims(out, &args[k].array_dims);
        proof {
            assert(vs.subrange(0, k + 1).drop_last() =~= vs.subrange(0, k as int));
            assert(vs.subrange(0, k + 1).last() == args@[k as int]@);
            if k == 0 {
                assert(vs.subrange(0, 0) =~= Seq::<TypeView>::empty());
            }
            assert(out@ =~= old(out)@ + params_text(vs.subrange(0, k + 1)));
        }
        k = k + 1;
    }
    proof {
        assert(vs.subrange(0, k as int) =~= vs);
    }
}

fn write_body(out: &mut String, f: &ErasedFun)
    ensures
        final(out)@ == old(out)@ + body_text(f@),
{
    let ghost vs = f@.scope.instructions;
    let instrs = &f.scope.instructions;
    assert(vs == instr_views(instrs@));
    out.append("{\n");
    let ghost start = out@;
    let mut k: usize = 0;
    while k < instrs.len()
        invariant
            k <= instrs@.len(),
            vs == instr_views(instrs@),
            out@ == start + instrs_text(vs.subrange(0, k as int)),
        decreases instrs@.len() - k,
    {
        write_instr(out, &instrs[k]);
        proof {
            assert(vs.subrange(0, k + 1).drop_last() =~= vs.subrange(0, k as int));
            assert(vs.subrange(0, k + 1).last() == instrs@[k as int]@);
            assert(out@ =~= start + instrs_text(vs.subrange(0, k + 1)));
        }
        k = k + 1;
    }
    proof {
        assert(vs.subrange(0, k as int) =~= vs);
    }
    match &f.ret {
        ErasedReturn::Void => {},
        ErasedReturn::Expr(_, e) => {
            out.append("return ");
            write_expr(out, e);
            out.append(";\n");
        },
    }
    out.append("}\n");
    proof {
        assert(final(out)@ =~= old(out)@ + body_text(f@));
    }
}

/// Appends the text of the declaration `d`.
pub fn write_decl(out: &mut String, d: &ShaderDecl)
    ensures
        final(out)@ == old(out)@ + decl_text(d@),
{
    match d {
        ShaderDecl::Main(f) => {
            out.append("void main() ");
            write_body(out, f);
        },
        ShaderDecl::FunDef(n, f) => {
            match &f.ret {
                ErasedReturn::Void => out.append("void"),
                ErasedReturn::Expr(t, _) => write_type(out, t),
            }
            out.append(" fun_");
            write_decimal(out, *n as u64);
            out.append("(");
            write_params(out, &f.args);
            out.append(") ");
            write_body(out, f);
        },
        ShaderDecl::Const(h, t, e) => {
            out.append("const ");
            write_declarator(out, t, ScopedHandle::Global(*h));
            out.append(" = ");
            write_expr(out, e);
            out.append(";\n");
        },
        ShaderDecl::In(h, t) => {
            out.append("in ");
            write_declarator(out, t, ScopedHandle::Global(*h));
            out.append(";\n");
        },
        ShaderDecl::Out(h, t) => {
            out.append("out ");
            write_declarator(out, t, ScopedHandle::Global(*h));
            out.append(";\n");
        },
    }
    proof {
        assert(final(out)@ =~= old(out)@ + decl_text(d@));
    }
}

/// The source text of `shader`.
pub fn write_shader(shader: &Shader) -> (r: String)
    ensures
        r@ == shader_text(shader@),
{
    let decls = shader.decls();
    let ghost vs = shader@.decls;
    let mut out = String::new();
    let mut k: usize = 0;
    while k < decls.len()
        invariant
            k <= decls@.len(),
            decls@.len() == vs.len(),
            forall|j: int| 0 <= j < decls@.len() ==> (#[trigger] decls@[j])@ == vs[j],
            out@ == decls_text(vs.subrange(0, k as int)),
        decreases decls@.len() - k,
    {
        write_decl(&mut out, &decls[k]);
        proof {
            assert(vs.subrange(0, k + 1).drop_last() =~= vs.subrange(0, k as int));
        }
        k = k + 1;
    }
    proof {
        assert(vs.subrange(0, k as int) =~= vs);
    }
    out
}

} // verus!
