//! Primitive kinds, dimensions and type descriptors.

use vstd::prelude::*;

verus! {

/// Dimensionality of a primitive: a scalar or a 2-, 3- or 4-component vector.
#[derive(Clone, Copy, Debug, Eq, Hash, PartialEq, Structural)]
pub enum Dim {
    Scalar,
    D2,
    D3,
    D4,
}

/// A scalar kind crossed with a dimensionality.
#[derive(Clone, Copy, Debug, Eq, Hash, PartialEq, Structural)]
pub enum PrimType {
    Int(Dim),
    UInt(Dim),
    Float(Dim),
    Bool(Dim),
}

/// A type descriptor: a primitive type plus its array extents, outer to inner.
///
/// `[[T; N]; M]` has `array_dims == [M, N]`; a non-array type has no extent.
#[derive(Clone, Debug, Eq, Hash, PartialEq)]
pub struct Type {
    pub prim_ty: PrimType,
    pub array_dims: Vec<usize>,
}

/// The mathematical value of a [`Type`].
pub struct TypeView {
    pub prim_ty: PrimType,
    pub array_dims: Seq<usize>,
}

impl View for Type {
    type V = TypeView;

    open spec fn view(&self) -> TypeView {
        TypeView { prim_ty: self.prim_ty, array_dims: self.array_dims@ }
    }
}

impl Type {
    /// A copy of this descriptor.
    pub fn copy(&self) -> (r: Type)
        ensures
            r@ == self@,
    {
        let mut dims: Vec<usize> = Vec::new();
        let mut i: usize = 0;
        while i < self.array_dims.len()
            invariant
                i <= self.array_dims@.len(),
                dims@ == self.array_dims@.subrange(0, i as int),
            decreases self.array_dims@.len() - i,
        {
            dims.push(self.array_dims[i]);
            i = i + 1;
        }
        proof {
            assert(dims@ =~= self.array_dims@);
        }
        Type { prim_ty: self.prim_ty, array_dims: dims }
    }
}

/// A single-precision floating-point value, held by its IEEE-754 bit pattern.
///
/// Shader literals only carry such values through to the emitted program, so the
/// library never computes with them.
#[derive(Clone, Copy, Debug, Eq, Hash, PartialEq, Structural)]
pub struct Float {
    pub bits: u32,
}

impl Float {
    /// The value whose bit pattern is `bits`.
    pub fn from_bits(bits: u32) -> (r: Float)
        ensures
            r.bits == bits,
    {
        Float { bits }
    }

    /// The bit pattern of this value.
    pub fn to_bits(&self) -> (r: u32)
        ensures
            r == self.bits,
    {
        self.bits
    }
}

/// A 2-component vector value.
#[derive(Clone, Copy, Debug, PartialEq)]
pub struct V2<T>(pub [T; 2]);

impl<T> From<[T; 2]> for V2<T> {
    fn from(a: [T; 2]) -> (r: Self)
        ensures
            r == V2(a),
    {
        V2(a)
    }
}

impl<T> vstd::std_specs::convert::FromSpecImpl<[T; 2]> for V2<T> {
    open spec fn obeys_from_spec() -> bool {
        true
    }

    open spec fn from_spec(a: [T; 2]) -> Self {
        V2(a)
    }
}

/// A 3-component vector value.
#[derive(Clone, Copy, Debug, PartialEq)]
pub struct V3<T>(pub [T; 3]);

impl<T> From<[T; 3]> for V3<T> {
    fn from(a: [T; 3]) -> (r: Self)
        ensures
            r == V3(a),
    {
        V3(a)
    }
}

impl<T> vstd::std_specs::convert::FromSpecImpl<[T; 3]> for V3<T> {
    open spec fn obeys_from_spec() -> bool {
        true
    }

    open spec fn from_spec(a: [T; 3]) -> Self {
        V3(a)
    }
}

/// A 4-component vector value.
#[derive(Clone, Copy, Debug, PartialEq)]
pub struct V4<T>(pub [T; 4]);

impl<T> From<[T; 4]> for V4<T> {
    fn from(a: [T; 4]) -> (r: Self)
        ensures
            r == V4(a),
    {
        V4(a)
    }
}

impl<T> vstd::std_specs::convert::FromSpecImpl<[T; 4]> for V4<T> {
    open spec fn obeys_from_spec() -> bool {
        true
    }

    open spec fn from_spec(a: [T; 4]) -> Self {
        V4(a)
    }
}

/// Host types that stand for a primitive shader type.
pub trait ToPrimType {
    spec fn spec_prim_type() -> PrimType;

    fn prim_type() -> (r: PrimType)
        ensures
            r == Self::spec_prim_type(),
    ;
}

impl ToPrimType for i32 {
    open spec fn spec_prim_type() -> PrimType {
        PrimType::Int(Dim::Scalar)
    }

    fn prim_type() -> (r: PrimType) {
        PrimType::Int(Dim::Scalar)
    }
}

impl ToPrimType for u32 {
    open spec fn spec_prim_type() -> PrimType {
        PrimType::UInt(Dim::Scalar)
    }

    fn prim_type() -> (r: PrimType) {
        PrimType::UInt(Dim::Scalar)
    }
}

impl ToPrimType for Float {
    open spec fn spec_prim_type() -> PrimType {
        PrimType::Float(Dim::Scalar)
    }

    fn prim_type() -> (r: PrimType) {
        PrimType::Float(Dim::Scalar)
    }
}

impl ToPrimType for bool {
    open spec fn spec_prim_type() -> PrimType {
        PrimType::Bool(Dim::Scalar)
    }

    fn prim_type() -> (r: PrimType) {
        PrimType::Bool(Dim::Scalar)
    }
}

impl ToPrimType for V2<i32> {
    open spec fn spec_prim_type() -> PrimType {
        PrimType::Int(Dim::D2)
    }

    fn prim_type() -> (r: PrimType) {
        PrimType::Int(Dim::D2)
    }
}

impl ToPrimType for V2<u32> {
    open spec fn spec_prim_type() -> PrimType {
        PrimType::UInt(Dim::D2)
    }

    fn prim_type() -> (r: PrimType) {
        PrimType::UInt(Dim::D2)
    }
}

impl ToPrimType for V2<Float> {
    open spec fn spec_prim_type() -> PrimType {
        PrimType::Float(Dim::D2)
    }

    fn prim_type() -> (r: PrimType) {
        PrimType::Float(Dim::D2)
    }
}

impl ToPrimType for V2<bool> {
    open spec fn spec_prim_type() -> PrimType {
        PrimType::Bool(Dim::D2)
    }

    fn prim_type() -> (r: PrimType) {
        PrimType::Bool(Dim::D2)
    }
}

impl ToPrimType for V3<i32> {
    open spec fn spec_prim_type() -> PrimType {
        PrimType::Int(Dim::D3)
    }

    fn prim_type() -> (r: PrimType) {
        PrimType::Int(Dim::D3)
    }
}

impl ToPrimType for V3<u32> {
    open spec fn spec_prim_type() -> PrimType {
        PrimType::UInt(Dim::D3)
    }

    fn prim_type() -> (r: PrimType) {
        PrimType::UInt(Dim::D3)
    }
}

impl ToPrimType for V3<Float> {
    open spec fn spec_prim_type() -> PrimType {
        PrimType::Float(Dim::D3)
    }

    fn prim_type() -> (r: PrimType) {
        PrimType::Float(Dim::D3)
    }
}

impl ToPrimType for V3<bool> {
    open spec fn spec_prim_type() -> PrimType {
        PrimType::Bool(Dim::D3)
    }

    fn prim_type() -> (r: PrimType) {
        PrimType::Bool(Dim::D3)
    }
}

impl ToPrimType for V4<i32> {
    open spec fn spec_prim_type() -> PrimType {
        PrimType::Int(Dim::D4)
    }

    fn prim_type() -> (r: PrimType) {
        PrimType::Int(Dim::D4)
    }
}

impl ToPrimType for V4<u32> {
    open spec fn spec_prim_type() -> PrimType {
        PrimType::UInt(Dim::D4)
    }

    fn prim_type() -> (r: PrimType) {
        PrimType::UInt(Dim::D4)
    }
}

impl ToPrimType for V4<Float> {
    open spec fn spec_prim_type() -> PrimType {
        PrimType::Float(Dim::D4)
    }

    fn prim_type() -> (r: PrimType) {
        PrimType::Float(Dim::D4)
    }
}

impl ToPrimType for V4<bool> {
    open spec fn spec_prim_type() -> PrimType {
        PrimType::Bool(Dim::D4)
    }

    fn prim_type() -> (r: PrimType) {
        PrimType::Bool(Dim::D4)
    }
}

/// Host types that stand for a shader type, arrays included.
pub trait ToType {
    spec fn spec_ty() -> TypeView;

    fn ty() -> (r: Type)
        ensures
            r@ == Self::spec_ty(),
    ;
}

impl<T: ToPrimType> ToType for T {
    open spec fn spec_ty() -> TypeView {
        TypeView { prim_ty: T::spec_prim_type(), array_dims: Seq::empty() }
    }

    fn ty() -> (r: Type) {
        let r = Type { prim_ty: T::prim_type(), array_dims: Vec::new() };
        proof {
            assert(r@.array_dims =~= Seq::<usize>::empty());
        }
        r
    }
}

impl<T: ToType, const N: usize> ToType for [T; N] {
    open spec fn spec_ty() -> TypeView {
        TypeView { prim_ty: T::spec_ty().prim_ty, array_dims: seq![N].add(T::spec_ty().array_dims) }
    }

    fn ty() -> (r: Type) {
        let inner = T::ty();
        let mut dims: Vec<usize> = Vec::new();
        dims.push(N);
        let mut i: usize = 0;
        while i < inner.array_dims.len()
            invariant
                i <= inner.array_dims@.len(),
                dims@ == seq![N].add(inner.array_dims@.subrange(0, i as int)),
            decreases inner.array_dims@.len() - i,
        {
            dims.push(inner.array_dims[i]);
            proof {
                assert(inner.array_dims@.subrange(0, i + 1) =~= inner.array_dims@.subrange(
                    0,
                    i as int,
                ).push(inner.array_dims@[i as int]));
                assert(seq![N].add(inner.array_dims@.subrange(0, i + 1)) =~= seq![N].add(
                    inner.array_dims@.subrange(0, i as int),
                ).push(inner.array_dims@[i as int]));
            }
            i = i + 1;
        }
        proof {
            assert(inner.array_dims@.subrange(0, i as int) =~= inner.array_dims@);
        }
        Type { prim_ty: inner.prim_ty, array_dims: dims }
    }
}

} // verus!
