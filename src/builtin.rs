//! Named slots that each shader stage defines.

use vstd::prelude::*;

verus! {

/// A built-in slot of one of the five stages.
#[derive(Clone, Copy, Debug, Eq, Hash, Ord, PartialEq, PartialOrd)]
pub enum BuiltIn {
    Vertex(VertexBuiltIn),
    TessCtrl(TessCtrlBuiltIn),
    TessEval(TessEvalBuiltIn),
    Geometry(GeometryBuiltIn),
    Fragment(FragmentBuiltIn),
}

/// Built-in slots of the vertex stage.
#[derive(Clone, Copy, Debug, Eq, Hash, Ord, PartialEq, PartialOrd)]
pub enum VertexBuiltIn {
    VertexID,
    InstanceID,
    BaseVertex,
    BaseInstance,
    Position,
    PointSize,
    ClipDistance,
}

/// Built-in slots of the tessellation-control stage.
#[derive(Clone, Copy, Debug, Eq, Hash, Ord, PartialEq, PartialOrd)]
pub enum TessCtrlBuiltIn {
    MaxPatchVerticesIn,
    PatchVerticesIn,
    PrimitiveID,
    InvocationID,
    TessellationLevelOuter,
    TessellationLevelInner,
    In,
    Out,
    Position,
    PointSize,
    ClipDistance,
    CullDistance,
}

/// Built-in slots of the tessellation-evaluation stage.
#[derive(Clone, Copy, Debug, Eq, Hash, Ord, PartialEq, PartialOrd)]
pub enum TessEvalBuiltIn {
    TessCoord,
    MaxPatchVerticesIn,
    PatchVerticesIn,
    PrimitiveID,
    TessellationLevelOuter,
    TessellationLevelInner,
    In,
    Out,
    Position,
    PointSize,
    ClipDistance,
    CullDistance,
}

/// Built-in slots of the geometry stage.
#[derive(Clone, Copy, Debug, Eq, Hash, Ord, PartialEq, PartialOrd)]
pub enum GeometryBuiltIn {
    In,
    Out,
    Position,
    PointSize,
    ClipDistance,
    CullDistance,
    PrimitiveID,
    PrimitiveIDIn,
    InvocationID,
    Layer,
    ViewportIndex,
}

/// Built-in slots of the fragment stage.
#[derive(Clone, Copy, Debug, Eq, Hash, Ord, PartialEq, PartialOrd)]
pub enum FragmentBuiltIn {
    FragCoord,
    FrontFacing,
    PointCoord,
    SampleID,
    SamplePosition,
    SampleMaskIn,
    ClipDistance,
    CullDistance,
    PrimitiveID,
    Layer,
    ViewportIndex,
    FragDepth,
    SampleMask,
    HelperInvocation,
}

} // verus!
