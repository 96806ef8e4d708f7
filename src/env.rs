//! The built-in inputs and outputs that each shader stage exposes.

use vstd::prelude::*;

use crate::builtin::{BuiltIn, FragmentBuiltIn, GeometryBuiltIn, TessCtrlBuiltIn, TessEvalBuiltIn, VertexBuiltIn};
use crate::expr::{copy_expr, ErasedExpr, ExprView, ScopedHandle};
use crate::typed::{Expr, Var};
use crate::types::{Float, V2, V3, V4};

verus! {

/// The reference to a read-only built-in.
pub open spec fn immut_builtin(b: BuiltIn) -> ExprView {
    ExprView::ImmutBuiltIn(b)
}

/// The reference to a built-in through a variable handle.
pub open spec fn mut_builtin(b: BuiltIn) -> ExprView {
    ExprView::MutVar(ScopedHandle::BuiltIn(b))
}

/// The access to field `b` of the aggregate `object`.
pub open spec fn field_view(object: ExprView, b: BuiltIn) -> ExprView {
    ExprView::Field { object: Box::new(object), field: Box::new(ExprView::ImmutBuiltIn(b)) }
}

fn builtin_field(object: ErasedExpr, b: BuiltIn) -> (r: ErasedExpr)
    ensures
        r@ == field_view(object@, b),
{
    let field = ErasedExpr::ImmutBuiltIn(b);
    assert(field@ == ExprView::ImmutBuiltIn(b));
    ErasedExpr::Field { object: Box::new(object), field: Box::new(field) }
}

/// The built-in inputs and outputs of the vertex stage.
pub struct VertexShaderEnv {
    pub vertex_id: Expr<i32>,
    pub instance_id: Expr<i32>,
    pub base_vertex: Expr<i32>,
    pub base_instance: Expr<i32>,
    pub position: Var<V4<Float>>,
    pub point_size: Var<Float>,
    pub clip_distance: Var<[Float]>,
}

impl VertexShaderEnv {
    /// Every field refers to the built-in of its name.
    pub open spec fn is_standard(&self) -> bool {
        self.vertex_id@ == immut_builtin(BuiltIn::Vertex(VertexBuiltIn::VertexID))
        && self.instance_id@ == immut_builtin(BuiltIn::Vertex(VertexBuiltIn::InstanceID))
        && self.base_vertex@ == immut_builtin(BuiltIn::Vertex(VertexBuiltIn::BaseVertex))
        && self.base_instance@ == immut_builtin(BuiltIn::Vertex(VertexBuiltIn::BaseInstance))
        && self.position@ == mut_builtin(BuiltIn::Vertex(VertexBuiltIn::Position))
        && self.point_size@ == mut_builtin(BuiltIn::Vertex(VertexBuiltIn::PointSize))
        && self.clip_distance@ == mut_builtin(BuiltIn::Vertex(VertexBuiltIn::ClipDistance))
    }

    pub fn new() -> (r: Self)
        ensures
            r.is_standard(),
    {
        let vertex_id = Expr::new_immut_builtin(BuiltIn::Vertex(VertexBuiltIn::VertexID));
        let instance_id = Expr::new_immut_builtin(BuiltIn::Vertex(VertexBuiltIn::InstanceID));
        let base_vertex = Expr::new_immut_builtin(BuiltIn::Vertex(VertexBuiltIn::BaseVertex));
        let base_instance = Expr::new_immut_builtin(BuiltIn::Vertex(VertexBuiltIn::BaseInstance));
        let position = Var::new(ScopedHandle::BuiltIn(BuiltIn::Vertex(VertexBuiltIn::Position)));
        let point_size = Var::new(ScopedHandle::BuiltIn(BuiltIn::Vertex(VertexBuiltIn::PointSize)));
        let clip_distance = Var::new(ScopedHandle::BuiltIn(BuiltIn::Vertex(VertexBuiltIn::ClipDistance)));
        VertexShaderEnv { vertex_id, instance_id, base_vertex, base_instance, position, point_size, clip_distance }
    }
}

/// The built-in inputs and outputs of the tessellation-control stage.
pub struct TessCtrlShaderEnv {
    pub max_patch_vertices_in: Expr<i32>,
    pub patch_vertices_in: Expr<i32>,
    pub primitive_id: Expr<i32>,
    pub invocation_id: Expr<i32>,
    pub input: Expr<[TessControlPerVertexIn]>,
    pub tess_level_outer: Var<[Float; 4]>,
    pub tess_level_inner: Var<[Float; 2]>,
    pub output: Var<[TessControlPerVertexOut]>,
}

impl TessCtrlShaderEnv {
    /// Every field refers to the built-in of its name.
    pub open spec fn is_standard(&self) -> bool {
        self.max_patch_vertices_in@ == immut_builtin(BuiltIn::TessCtrl(TessCtrlBuiltIn::MaxPatchVerticesIn))
        && self.patch_vertices_in@ == immut_builtin(BuiltIn::TessCtrl(TessCtrlBuiltIn::PatchVerticesIn))
        && self.primitive_id@ == immut_builtin(BuiltIn::TessCtrl(TessCtrlBuiltIn::PrimitiveID))
        && self.invocation_id@ == immut_builtin(BuiltIn::TessCtrl(TessCtrlBuiltIn::InvocationID))
        && self.input@ == immut_builtin(BuiltIn::TessCtrl(TessCtrlBuiltIn::In))
        && self.tess_level_outer@ == mut_builtin(BuiltIn::TessCtrl(TessCtrlBuiltIn::TessellationLevelOuter))
        && self.tess_level_inner@ == mut_builtin(BuiltIn::TessCtrl(TessCtrlBuiltIn::TessellationLevelInner))
        && self.output@ == mut_builtin(BuiltIn::TessCtrl(TessCtrlBuiltIn::Out))
    }

    pub fn new() -> (r: Self)
        ensures
            r.is_standard(),
    {
        let max_patch_vertices_in = Expr::new_immut_builtin(BuiltIn::TessCtrl(TessCtrlBuiltIn::MaxPatchVerticesIn));
        let patch_vertices_in = Expr::new_immut_builtin(BuiltIn::TessCtrl(TessCtrlBuiltIn::PatchVerticesIn));
        let primitive_id = Expr::new_immut_builtin(BuiltIn::TessCtrl(TessCtrlBuiltIn::PrimitiveID));
        let invocation_id = Expr::new_immut_builtin(BuiltIn::TessCtrl(TessCtrlBuiltIn::InvocationID));
        let input = Expr::new_immut_builtin(BuiltIn::TessCtrl(TessCtrlBuiltIn::In));
        let tess_level_outer = Var::new(ScopedHandle::BuiltIn(BuiltIn::TessCtrl(TessCtrlBuiltIn::TessellationLevelOuter)));
        let tess_level_inner = Var::new(ScopedHandle::BuiltIn(BuiltIn::TessCtrl(TessCtrlBuiltIn::TessellationLevelInner)));
        let output = Var::new(ScopedHandle::BuiltIn(BuiltIn::TessCtrl(TessCtrlBuiltIn::Out)));
        TessCtrlShaderEnv { max_patch_vertices_in, patch_vertices_in, primitive_id, invocation_id, input, tess_level_outer, tess_level_inner, output }
    }
}

/// The built-in inputs and outputs of the tessellation-evaluation stage.
pub struct TessEvalShaderEnv {
    pub patch_vertices_in: Expr<i32>,
    pub primitive_id: Expr<i32>,
    pub tess_coord: Expr<V3<Float>>,
    pub tess_level_outer: Expr<[Float; 4]>,
    pub tess_level_inner: Expr<[Float; 2]>,
    pub input: Expr<[TessEvaluationPerVertexIn]>,
    pub position: Var<V4<Float>>,
    pub point_size: Var<Float>,
    pub clip_distance: Var<[Float]>,
    pub cull_distance: Var<[Float]>,
}

impl TessEvalShaderEnv {
    /// Every field refers to the built-in of its name.
    pub open spec fn is_standard(&self) -> bool {
        self.patch_vertices_in@ == immut_builtin(BuiltIn::TessEval(TessEvalBuiltIn::PatchVerticesIn))
        && self.primitive_id@ == immut_builtin(BuiltIn::TessEval(TessEvalBuiltIn::PrimitiveID))
        && self.tess_coord@ == immut_builtin(BuiltIn::TessEval(TessEvalBuiltIn::TessCoord))
        && self.tess_level_outer@ == immut_builtin(BuiltIn::TessEval(TessEvalBuiltIn::TessellationLevelOuter))
        && self.tess_level_inner@ == immut_builtin(BuiltIn::TessEval(TessEvalBuiltIn::TessellationLevelInner))
        && self.input@ == immut_builtin(BuiltIn::TessEval(TessEvalBuiltIn::In))
        && self.position@ == mut_builtin(BuiltIn::TessEval(TessEvalBuiltIn::Position))
        && self.point_size@ == mut_builtin(BuiltIn::TessEval(TessEvalBuiltIn::PointSize))
        && self.clip_distance@ == mut_builtin(BuiltIn::TessEval(TessEvalBuiltIn::ClipDistance))
        && self.cull_distance@ == mut_builtin(BuiltIn::TessEval(TessEvalBuiltIn::CullDistance))
    }

    pub fn new() -> (r: Self)
        ensures
            r.is_standard(),
    {
        let patch_vertices_in = Expr::new_immut_builtin(BuiltIn::TessEval(TessEvalBuiltIn::PatchVerticesIn));
        let primitive_id = Expr::new_immut_builtin(BuiltIn::TessEval(TessEvalBuiltIn::PrimitiveID));
        let tess_coord = Expr::new_immut_builtin(BuiltIn::TessEval(TessEvalBuiltIn::TessCoord));
        let tess_level_outer = Expr::new_immut_builtin(BuiltIn::TessEval(TessEvalBuiltIn::TessellationLevelOuter));
        let tess_level_inner = Expr::new_immut_builtin(BuiltIn::TessEval(TessEvalBuiltIn::TessellationLevelInner));
        let input = Expr::new_immut_builtin(BuiltIn::TessEval(TessEvalBuiltIn::In));
        let position = Var::new(ScopedHandle::BuiltIn(BuiltIn::TessEval(TessEvalBuiltIn::Position)));
        let point_size = Var::new(ScopedHandle::BuiltIn(BuiltIn::TessEval(TessEvalBuiltIn::PointSize)));
        let clip_distance = Var::new(ScopedHandle::BuiltIn(BuiltIn::TessEval(TessEvalBuiltIn::ClipDistance)));
        let cull_distance = Var::new(ScopedHandle::BuiltIn(BuiltIn::TessEval(TessEvalBuiltIn::CullDistance)));
        TessEvalShaderEnv { patch_vertices_in, primitive_id, tess_coord, tess_level_outer, tess_level_inner, input, position, point_size, clip_distance, cull_distance }
    }
}

/// The built-in inputs and outputs of the geometry stage.
pub struct GeometryShaderEnv {
    pub primitive_id_in: Expr<i32>,
    pub invocation_id: Expr<i32>,
    pub input: Expr<[GeometryPerVertexIn]>,
    pub position: Var<V4<Float>>,
    pub point_size: Var<Float>,
    pub clip_distance: Var<[Float]>,
    pub cull_distance: Var<[Float]>,
    pub primitive_id: Var<i32>,
    pub layer: Var<i32>,
    pub viewport_index: Var<i32>,
}

impl GeometryShaderEnv {
    /// Every field refers to the built-in of its name.
    pub open spec fn is_standard(&self) -> bool {
        self.primitive_id_in@ == immut_builtin(BuiltIn::Geometry(GeometryBuiltIn::PrimitiveIDIn))
        && self.invocation_id@ == immut_builtin(BuiltIn::Geometry(GeometryBuiltIn::InvocationID))
        && self.input@ == immut_builtin(BuiltIn::Geometry(GeometryBuiltIn::In))
        && self.position@ == mut_builtin(BuiltIn::Geometry(GeometryBuiltIn::Position))
        && self.point_size@ == mut_builtin(BuiltIn::Geometry(GeometryBuiltIn::PointSize))
        && self.clip_distance@ == mut_builtin(BuiltIn::Geometry(GeometryBuiltIn::ClipDistance))
        && self.cull_distance@ == mut_builtin(BuiltIn::Geometry(GeometryBuiltIn::CullDistance))
        && self.primitive_id@ == mut_builtin(BuiltIn::Geometry(GeometryBuiltIn::PrimitiveID))
        && self.layer@ == mut_builtin(BuiltIn::Geometry(GeometryBuiltIn::Layer))
        && self.viewport_index@ == mut_builtin(BuiltIn::Geometry(GeometryBuiltIn::ViewportIndex))
    }

    pub fn new() -> (r: Self)
        ensures
            r.is_standard(),
    {
        let primitive_id_in = Expr::new_immut_builtin(BuiltIn::Geometry(GeometryBuiltIn::PrimitiveIDIn));
        let invocation_id = Expr::new_immut_builtin(BuiltIn::Geometry(GeometryBuiltIn::InvocationID));
        let input = Expr::new_immut_builtin(BuiltIn::Geometry(GeometryBuiltIn::In));
        let position = Var::new(ScopedHandle::BuiltIn(BuiltIn::Geometry(GeometryBuiltIn::Position)));
        let point_size = Var::new(ScopedHandle::BuiltIn(BuiltIn::Geometry(GeometryBuiltIn::PointSize)));
        let clip_distance = Var::new(ScopedHandle::BuiltIn(BuiltIn::Geometry(GeometryBuiltIn::ClipDistance)));
        let cull_distance = Var::new(ScopedHandle::BuiltIn(BuiltIn::Geometry(GeometryBuiltIn::CullDistance)));
        let primitive_id = Var::new(ScopedHandle::BuiltIn(BuiltIn::Geometry(GeometryBuiltIn::PrimitiveID)));
        let layer = Var::new(ScopedHandle::BuiltIn(BuiltIn::Geometry(GeometryBuiltIn::Layer)));
        let viewport_index = Var::new(ScopedHandle::BuiltIn(BuiltIn::Geometry(GeometryBuiltIn::ViewportIndex)));
        GeometryShaderEnv { primitive_id_in, invocation_id, input, position, point_size, clip_distance, cull_distance, primitive_id, layer, viewport_index }
    }
}

/// The built-in inputs and outputs of the fragment stage.
pub struct FragmentShaderEnv {
    pub frag_coord: Expr<V4<Float>>,
    pub front_facing: Expr<bool>,
    pub clip_distance: Expr<[Float]>,
    pub cull_distance: Expr<[Float]>,
    pub point_coord: Expr<V2<Float>>,
    pub primitive_id: Expr<i32>,
    pub sample_id: Expr<i32>,
    pub sample_position: Expr<V2<Float>>,
    pub sample_mask_in: Expr<i32>,
    pub layer: Expr<i32>,
    pub viewport_index: Expr<i32>,
    pub helper_invocation: Expr<bool>,
    pub frag_depth: Var<Float>,
    pub sample_mask: Var<[i32]>,
}

impl FragmentShaderEnv {
    /// Every field refers to the built-in of its name.
    pub open spec fn is_standard(&self) -> bool {
        self.frag_coord@ == mut_builtin(BuiltIn::Fragment(FragmentBuiltIn::FragCoord))
        && self.front_facing@ == mut_builtin(BuiltIn::Fragment(FragmentBuiltIn::FrontFacing))
        && self.clip_distance@ == mut_builtin(BuiltIn::Fragment(FragmentBuiltIn::ClipDistance))
        && self.cull_distance@ == mut_builtin(BuiltIn::Fragment(FragmentBuiltIn::CullDistance))
        && self.point_coord@ == mut_builtin(BuiltIn::Fragment(FragmentBuiltIn::PointCoord))
        && self.primitive_id@ == mut_builtin(BuiltIn::Fragment(FragmentBuiltIn::PrimitiveID))
        && self.sample_id@ == mut_builtin(BuiltIn::Fragment(FragmentBuiltIn::SampleID))
        && self.sample_position@ == mut_builtin(BuiltIn::Fragment(FragmentBuiltIn::SamplePosition))
        && self.sample_mask_in@ == mut_builtin(BuiltIn::Fragment(FragmentBuiltIn::SampleMaskIn))
        && self.layer@ == mut_builtin(BuiltIn::Fragment(FragmentBuiltIn::Layer))
        && self.viewport_index@ == mut_builtin(BuiltIn::Fragment(FragmentBuiltIn::ViewportIndex))
        && self.helper_invocation@ == mut_builtin(BuiltIn::Fragment(FragmentBuiltIn::HelperInvocation))
        && self.frag_depth@ == mut_builtin(BuiltIn::Fragment(FragmentBuiltIn::FragDepth))
        && self.sample_mask@ == mut_builtin(BuiltIn::Fragment(FragmentBuiltIn::SampleMask))
    }

    pub fn new() -> (r: Self)
        ensures
            r.is_standard(),
    {
        let frag_coord = Expr::new_builtin(BuiltIn::Fragment(FragmentBuiltIn::FragCoord));
        let front_facing = Expr::new_builtin(BuiltIn::Fragment(FragmentBuiltIn::FrontFacing));
        let clip_distance = Expr::new_builtin(BuiltIn::Fragment(FragmentBuiltIn::ClipDistance));
        let cull_distance = Expr::new_builtin(BuiltIn::Fragment(FragmentBuiltIn::CullDistance));
        let point_coord = Expr::new_builtin(BuiltIn::Fragment(FragmentBuiltIn::PointCoord));
        let primitive_id = Expr::new_builtin(BuiltIn::Fragment(FragmentBuiltIn::PrimitiveID));
        let sample_id = Expr::new_builtin(BuiltIn::Fragment(FragmentBuiltIn::SampleID));
        let sample_position = Expr::new_builtin(BuiltIn::Fragment(FragmentBuiltIn::SamplePosition));
        let sample_mask_in = Expr::new_builtin(BuiltIn::Fragment(FragmentBuiltIn::SampleMaskIn));
        let layer = Expr::new_builtin(BuiltIn::Fragment(FragmentBuiltIn::Layer));
        let viewport_index = Expr::new_builtin(BuiltIn::Fragment(FragmentBuiltIn::ViewportIndex));
        let helper_invocation = Expr::new_builtin(BuiltIn::Fragment(FragmentBuiltIn::HelperInvocation));
        let frag_depth = Var::new(ScopedHandle::BuiltIn(BuiltIn::Fragment(FragmentBuiltIn::FragDepth)));
        let sample_mask = Var::new(ScopedHandle::BuiltIn(BuiltIn::Fragment(FragmentBuiltIn::SampleMask)));
        FragmentShaderEnv { frag_coord, front_facing, clip_distance, cull_distance, point_coord, primitive_id, sample_id, sample_position, sample_mask_in, layer, viewport_index, helper_invocation, frag_depth, sample_mask }
    }
}

/// The per-vertex aggregate of the tessellation-control input.
pub struct TessControlPerVertexIn;

impl Expr<TessControlPerVertexIn> {
    pub fn position(&self) -> (r: Expr<V4<Float>>)
        ensures
            r@ == field_view(self@, BuiltIn::TessCtrl(TessCtrlBuiltIn::Position)),
    {
        let erased = builtin_field(copy_expr(self.erased()), BuiltIn::TessCtrl(TessCtrlBuiltIn::Position));
        Expr::new(erased)
    }

    pub fn point_size(&self) -> (r: Expr<Float>)
        ensures
            r@ == field_view(self@, BuiltIn::TessCtrl(TessCtrlBuiltIn::PointSize)),
    {
        let erased = builtin_field(copy_expr(self.erased()), BuiltIn::TessCtrl(TessCtrlBuiltIn::PointSize));
        Expr::new(erased)
    }

    pub fn clip_distance(&self) -> (r: Expr<[Float]>)
        ensures
            r@ == field_view(self@, BuiltIn::TessCtrl(TessCtrlBuiltIn::ClipDistance)),
    {
        let erased = builtin_field(copy_expr(self.erased()), BuiltIn::TessCtrl(TessCtrlBuiltIn::ClipDistance));
        Expr::new(erased)
    }

    pub fn cull_distance(&self) -> (r: Expr<[Float]>)
        ensures
            r@ == field_view(self@, BuiltIn::TessCtrl(TessCtrlBuiltIn::CullDistance)),
    {
        let erased = builtin_field(copy_expr(self.erased()), BuiltIn::TessCtrl(TessCtrlBuiltIn::CullDistance));
        Expr::new(erased)
    }
}

/// The per-vertex aggregate of the tessellation-control output.
pub struct TessControlPerVertexOut(());

impl Expr<TessControlPerVertexOut> {
    pub fn position(&self) -> (r: Var<V4<Float>>)
        ensures
            r@ == field_view(self@, BuiltIn::TessCtrl(TessCtrlBuiltIn::Position)),
    {
        let erased = builtin_field(copy_expr(self.erased()), BuiltIn::TessCtrl(TessCtrlBuiltIn::Position));
        Var::new_field(erased)
    }

    pub fn point_size(&self) -> (r: Var<Float>)
        ensures
            r@ == field_view(self@, BuiltIn::TessCtrl(TessCtrlBuiltIn::PointSize)),
    {
        let erased = builtin_field(copy_expr(self.erased()), BuiltIn::TessCtrl(TessCtrlBuiltIn::PointSize));
        Var::new_field(erased)
    }

    pub fn clip_distance(&self) -> (r: Var<[Float]>)
        ensures
            r@ == field_view(self@, BuiltIn::TessCtrl(TessCtrlBuiltIn::ClipDistance)),
    {
        let erased = builtin_field(copy_expr(self.erased()), BuiltIn::TessCtrl(TessCtrlBuiltIn::ClipDistance));
        Var::new_field(erased)
    }

    pub fn cull_distance(&self) -> (r: Var<[Float]>)
        ensures
            r@ == field_view(self@, BuiltIn::TessCtrl(TessCtrlBuiltIn::CullDistance)),
    {
        let erased = builtin_field(copy_expr(self.erased()), BuiltIn::TessCtrl(TessCtrlBuiltIn::CullDistance));
        Var::new_field(erased)
    }
}

/// The per-vertex aggregate of the tessellation-evaluation input.
pub struct TessEvaluationPerVertexIn;

impl Expr<TessEvaluationPerVertexIn> {
    pub fn position(&self) -> (r: Expr<V4<Float>>)
        ensures
            r@ == field_view(self@, BuiltIn::TessEval(TessEvalBuiltIn::Position)),
    {
        let erased = builtin_field(copy_expr(self.erased()), BuiltIn::TessEval(TessEvalBuiltIn::Position));
        Expr::new(erased)
    }

    pub fn point_size(&self) -> (r: Expr<Float>)
        ensures
            r@ == field_view(self@, BuiltIn::TessEval(TessEvalBuiltIn::PointSize)),
    {
        let erased = builtin_field(copy_expr(self.erased()), BuiltIn::TessEval(TessEvalBuiltIn::PointSize));
        Expr::new(erased)
    }

    pub fn clip_distance(&self) -> (r: Expr<[Float]>)
        ensures
            r@ == field_view(self@, BuiltIn::TessEval(TessEvalBuiltIn::ClipDistance)),
    {
        let erased = builtin_field(copy_expr(self.erased()), BuiltIn::TessEval(TessEvalBuiltIn::ClipDistance));
        Expr::new(erased)
    }

    pub fn cull_distance(&self) -> (r: Expr<[Float]>)
        ensures
            r@ == field_view(self@, BuiltIn::TessEval(TessEvalBuiltIn::CullDistance)),
    {
        let erased = builtin_field(copy_expr(self.erased()), BuiltIn::TessEval(TessEvalBuiltIn::CullDistance));
        Expr::new(erased)
    }
}

/// The per-vertex aggregate of the geometry input.
pub struct GeometryPerVertexIn;

impl Expr<GeometryPerVertexIn> {
    pub fn position(&self) -> (r: Expr<V4<Float>>)
        ensures
            r@ == field_view(self@, BuiltIn::Geometry(GeometryBuiltIn::Position)),
    {
        let erased = builtin_field(copy_expr(self.erased()), BuiltIn::Geometry(GeometryBuiltIn::Position));
        Expr::new(erased)
    }

    pub fn point_size(&self) -> (r: Expr<Float>)
        ensures
            r@ == field_view(self@, BuiltIn::Geometry(GeometryBuiltIn::PointSize)),
    {
        let erased = builtin_field(copy_expr(self.erased()), BuiltIn::Geometry(GeometryBuiltIn::PointSize));
        Expr::new(erased)
    }

    pub fn clip_distance(&self) -> (r: Expr<[Float]>)
        ensures
            r@ == field_view(self@, BuiltIn::Geometry(GeometryBuiltIn::ClipDistance)),
    {
        let erased = builtin_field(copy_expr(self.erased()), BuiltIn::Geometry(GeometryBuiltIn::ClipDistance));
        Expr::new(erased)
    }

    pub fn cull_distance(&self) -> (r: Expr<[Float]>)
        ensures
            r@ == field_view(self@, BuiltIn::Geometry(GeometryBuiltIn::CullDistance)),
    {
        let erased = builtin_field(copy_expr(self.erased()), BuiltIn::Geometry(GeometryBuiltIn::CullDistance));
        Expr::new(erased)
    }
}

} // verus!
