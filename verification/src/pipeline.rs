//! The plan of the render pipeline, drawn up once at startup, and the
//! commands that paint one frame with the resources made from it.

use crate::constants::{ShaderConstants, PUSH_CONSTANT_SIZE};
use crate::modules::{
    is_first_match, lemma_resolved_at, resolves, CompiledModule, CompiledShaderModules, ModuleView,
    ResolutionError,
};
use vstd::prelude::*;

verus! {

/// The label that every GPU object of the view bears, and the identifier
/// under which its resources are registered.
pub const LABEL: &'static str = "custom3d";

/// The entry point of the vertex stage.
pub const VERTEX_ENTRY: &'static str = "main_vs";

/// The entry point of the fragment stage.
pub const FRAGMENT_ENTRY: &'static str = "main_fs";

/// The size of the placeholder uniform buffer, and the least size of what
/// may be bound in its place, in bytes.
pub const UNIFORM_BUFFER_SIZE: u64 = 16;

/// A set of shader stages.
#[derive(Clone, Copy, Debug, PartialEq, Eq, Structural)]
pub struct ShaderStages {
    pub vertex: bool,
    pub fragment: bool,
}

/// The one entry of the bind-group layout: a uniform buffer.
#[derive(Clone, Copy, Debug, PartialEq, Eq, Structural)]
pub struct UniformBinding {
    pub binding: u32,
    pub visibility: ShaderStages,
    pub has_dynamic_offset: bool,
    pub min_binding_size: u64,
}

/// How a part of the pipeline's fixed-function state is set.
#[derive(Clone, Copy, Debug, PartialEq, Eq, Structural)]
pub enum FixedState {
    /// As the device has it by default.
    Default,
}

/// What a buffer may be used for.
#[derive(Clone, Copy, Debug, PartialEq, Eq, Structural)]
pub struct BufferUsages {
    pub copy_dst: bool,
    pub uniform: bool,
}

/// A range of push-constant bytes and the stages that see it.
#[derive(Clone, Copy, Debug, PartialEq, Eq, Structural)]
pub struct PushConstantRange {
    pub stages: ShaderStages,
    pub start: u32,
    pub end: u32,
}

/// One programmable stage: the place of its module in the plan's module set
/// and the entry point to run.
#[derive(Clone, Copy, Debug, PartialEq, Eq)]
pub struct StagePlan {
    pub module: usize,
    pub entry_point: &'static str,
}

/// What the device allows.
#[derive(Clone, Copy, Debug, PartialEq, Eq, Structural)]
pub struct DeviceLimits {
    pub max_push_constant_size: u32,
}

/// The push-constant block is larger than the device allows.
#[derive(Clone, Copy, Debug, PartialEq, Eq, Structural)]
pub struct LayoutMismatch {
    pub size: u32,
    pub limit: u32,
}

/// Everything that decides what the view's GPU objects are. `F` is the
/// host's colour format, which the plan hands through untouched.
#[derive(Clone, Debug, PartialEq, Eq)]
pub struct PipelinePlan<F> {
    pub label: &'static str,
    pub modules: CompiledShaderModules,
    pub vertex: StagePlan,
    pub fragment: StagePlan,
    pub uniform_binding: UniformBinding,
    pub push_constants: PushConstantRange,
    pub vertex_buffers: u32,
    pub primitive: FixedState,
    pub depth_stencil: bool,
    pub multisample: FixedState,
    /// The number of views to render to at once, if more than one.
    pub multiview: Option<u32>,
    pub color_target: F,
    pub uniform_contents: Vec<u8>,
    pub uniform_usage: BufferUsages,
}

impl<F> PipelinePlan<F> {
    /// The parts of the plan that are the same for every build and device:
    /// one uniform buffer of at least 16 bytes at binding 0, seen by the
    /// vertex stage; one push-constant range over the whole block from offset
    /// 0, seen by the vertex and the fragment stage; no vertex buffers, no
    /// depth or stencil and a single view, with the primitive and the
    /// multisample state at their defaults; a placeholder uniform buffer of
    /// 16 zero bytes that can be bound as a uniform and copied to.
    pub open spec fn has_fixed_layout(&self) -> bool {
        &&& self.label@ == LABEL@
        &&& self.vertex.entry_point@ == VERTEX_ENTRY@
        &&& self.fragment.entry_point@ == FRAGMENT_ENTRY@
        &&& self.uniform_binding == UniformBinding {
            binding: 0,
            visibility: ShaderStages { vertex: true, fragment: false },
            has_dynamic_offset: false,
            min_binding_size: UNIFORM_BUFFER_SIZE,
        }
        &&& self.push_constants == PushConstantRange {
            stages: ShaderStages { vertex: true, fragment: true },
            start: 0,
            end: PUSH_CONSTANT_SIZE,
        }
        &&& self.vertex_buffers == 0
        &&& self.primitive == FixedState::Default
        &&& !self.depth_stencil
        &&& self.multisample == FixedState::Default
        &&& self.multiview is None
        &&& self.uniform_contents@ == Seq::new(UNIFORM_BUFFER_SIZE as nat, |i: int| 0u8)
        &&& self.uniform_usage == BufferUsages { copy_dst: true, uniform: true }
    }

    /// The plan is the one for the module set `modules` and the colour
    /// format `color_target`: it holds that set, each stage runs the module
    /// that its entry point resolves to, and the fragment output goes to that
    /// format.
    pub open spec fn is_plan_for(&self, modules: Seq<ModuleView>, color_target: F) -> bool {
        &&& self.has_fixed_layout()
        &&& self.modules@ == modules
        &&& is_first_match(modules, VERTEX_ENTRY@, self.vertex.module as int)
        &&& is_first_match(modules, FRAGMENT_ENTRY@, self.fragment.module as int)
        &&& self.color_target == color_target
    }

    /// The module of the vertex stage, where the plan has one at that place.
    pub fn vertex_module(&self) -> (module: Option<&CompiledModule>)
        ensures
            module is Some <==> self.vertex.module < self.modules@.len(),
            module matches Some(m) ==> m@ == self.modules@[self.vertex.module as int],
    {
        if self.vertex.module < self.modules.named_spv_modules.len() {
            Some(&self.modules.named_spv_modules[self.vertex.module])
        } else {
            None
        }
    }

    /// The module of the fragment stage, where the plan has one at that
    /// place.
    pub fn fragment_module(&self) -> (module: Option<&CompiledModule>)
        ensures
            module is Some <==> self.fragment.module < self.modules@.len(),
            module matches Some(m) ==> m@ == self.modules@[self.fragment.module as int],
    {
        if self.fragment.module < self.modules.named_spv_modules.len() {
            Some(&self.modules.named_spv_modules[self.fragment.module])
        } else {
            None
        }
    }
}

/// Why no plan could be drawn up.
#[derive(Clone, Debug, PartialEq, Eq)]
pub enum PlanError {
    /// A stage's entry point is in none of the modules.
    Resolution(ResolutionError),
    /// The push-constant block does not fit the device.
    Layout(LayoutMismatch),
}

/// Why no plan could be drawn up, as contracts speak of it.
pub ghost enum PlanObstacle {
    Resolution { wanted_entry: Seq<char> },
    Layout(LayoutMismatch),
}

impl View for PlanError {
    type V = PlanObstacle;

    open spec fn view(&self) -> PlanObstacle {
        match self {
            PlanError::Resolution(e) => PlanObstacle::Resolution { wanted_entry: e.wanted_entry@ },
            PlanError::Layout(e) => PlanObstacle::Layout(*e),
        }
    }
}

/// The first reason, if any, for which `modules` and `limits` allow no plan:
/// the vertex entry point does not resolve, else the fragment entry point
/// does not, else the block is larger than the device allows.
pub open spec fn plan_obstacle(modules: Seq<ModuleView>, limits: DeviceLimits) -> Option<
    PlanObstacle,
> {
    if !resolves(modules, VERTEX_ENTRY@) {
        Some(PlanObstacle::Resolution { wanted_entry: VERTEX_ENTRY@ })
    } else if !resolves(modules, FRAGMENT_ENTRY@) {
        Some(PlanObstacle::Resolution { wanted_entry: FRAGMENT_ENTRY@ })
    } else if PUSH_CONSTANT_SIZE > limits.max_push_constant_size {
        Some(
            PlanObstacle::Layout(
                LayoutMismatch { size: PUSH_CONSTANT_SIZE, limit: limits.max_push_constant_size },
            ),
        )
    } else {
        None
    }
}

/// Draws up the plan of the pipeline for a module set, a device and a colour
/// format. There is a plan exactly when both entry points resolve and the
/// push-constant block fits the device.
pub fn build<F>(
    limits: DeviceLimits,
    modules: CompiledShaderModules,
    color_target_format: F,
) -> (result: Result<PipelinePlan<F>, PlanError>)
    ensures
        result is Ok <==> plan_obstacle(modules@, limits) is None,
        result matches Ok(plan) ==> plan.is_plan_for(modules@, color_target_format),
        result matches Err(e) ==> plan_obstacle(modules@, limits) == Some(e@),
{
    let vertex: usize = match modules.find_entry_point(VERTEX_ENTRY) {
        Some(i) => i,
        None => {
            return Err(
                PlanError::Resolution(
                    ResolutionError { wanted_entry: String::from_str(VERTEX_ENTRY) },
                ),
            );
        },
    };
    let fragment: usize = match modules.find_entry_point(FRAGMENT_ENTRY) {
        Some(i) => i,
        None => {
            return Err(
                PlanError::Resolution(
                    ResolutionError { wanted_entry: String::from_str(FRAGMENT_ENTRY) },
                ),
            );
        },
    };
    proof {
        lemma_resolved_at(modules@, VERTEX_ENTRY@, vertex as int);
        lemma_resolved_at(modules@, FRAGMENT_ENTRY@, fragment as int);
    }
    if PUSH_CONSTANT_SIZE > limits.max_push_constant_size {
        return Err(
            PlanError::Layout(
                LayoutMismatch { size: PUSH_CONSTANT_SIZE, limit: limits.max_push_constant_size },
            ),
        );
    }
    let mut uniform_contents: Vec<u8> = Vec::new();
    let mut i: u64 = 0;
    while i < UNIFORM_BUFFER_SIZE
        invariant
            i <= UNIFORM_BUFFER_SIZE,
            uniform_contents@.len() == i,
            forall|k: int| 0 <= k < i ==> uniform_contents@[k] == 0u8,
        decreases UNIFORM_BUFFER_SIZE - i,
    {
        uniform_contents.push(0u8);
        i += 1;
    }
    let plan = PipelinePlan {
        label: LABEL,
        modules,
        vertex: StagePlan { module: vertex, entry_point: VERTEX_ENTRY },
        fragment: StagePlan { module: fragment, entry_point: FRAGMENT_ENTRY },
        uniform_binding: UniformBinding {
            binding: 0,
            visibility: ShaderStages { vertex: true, fragment: false },
            has_dynamic_offset: false,
            min_binding_size: UNIFORM_BUFFER_SIZE,
        },
        push_constants: PushConstantRange {
            stages: ShaderStages { vertex: true, fragment: true },
            start: 0,
            end: PUSH_CONSTANT_SIZE,
        },
        vertex_buffers: 0,
        primitive: FixedState::Default,
        depth_stencil: false,
        multisample: FixedState::Default,
        multiview: None,
        color_target: color_target_format,
        uniform_contents,
        uniform_usage: BufferUsages { copy_dst: true, uniform: true },
    };
    assert(plan.uniform_contents@ =~= Seq::new(UNIFORM_BUFFER_SIZE as nat, |i: int| 0u8));
    Ok(plan)
}

/// The GPU objects made from a plan, whatever the host's types for them are.
/// They are made once and only read afterwards.
#[derive(Debug)]
pub struct TriangleRenderResources<P, G, B> {
    pub pipeline: P,
    pub bind_group: G,
    pub uniform_buffer: B,
}

/// One command of a render pass.
#[derive(Debug)]
pub enum RenderCommand<'a, P, G> {
    /// Make the pipeline current.
    SetPipeline { pipeline: &'a P },
    /// Bind a bind group at an index, without dynamic offsets.
    SetBindGroup { index: u32, bind_group: &'a G },
    /// Push bytes at an offset of the push-constant block.
    SetPushConstants { stages: ShaderStages, offset: u32, data: Vec<u8> },
    /// Draw the vertices and instances from `first` up to `end`.
    Draw { first_vertex: u32, end_vertex: u32, first_instance: u32, end_instance: u32 },
}

impl<P, G, B> TriangleRenderResources<P, G, B> {
    /// The commands that paint one frame: make the pipeline current, bind
    /// the bind group at index 0, push the byte image of `push_constants` at
    /// offset 0 for the vertex and the fragment stage, and draw three
    /// vertices, one instance.
    pub fn paint<'rp>(&'rp self, push_constants: ShaderConstants) -> (commands: Vec<
        RenderCommand<'rp, P, G>,
    >)
        ensures
            commands@.len() == 4,
            commands@[0] matches RenderCommand::SetPipeline { pipeline } && *pipeline
                == self.pipeline,
            commands@[1] matches RenderCommand::SetBindGroup { index, bind_group } && index == 0
                && *bind_group == self.bind_group,
            commands@[2] matches RenderCommand::SetPushConstants { stages, offset, data } && stages
                == (ShaderStages { vertex: true, fragment: true }) && offset == 0 && data@
                == push_constants.wire_bytes(),
            commands@[3] matches RenderCommand::Draw {
                first_vertex,
                end_vertex,
                first_instance,
                end_instance,
            } && first_vertex == 0 && end_vertex == 3 && first_instance == 0 && end_instance == 1,
    {
        let mut commands: Vec<RenderCommand<'rp, P, G>> = Vec::new();
        commands.push(RenderCommand::SetPipeline { pipeline: &self.pipeline });
        commands.push(RenderCommand::SetBindGroup { index: 0, bind_group: &self.bind_group });
        commands.push(
            RenderCommand::SetPushConstants {
                stages: ShaderStages { vertex: true, fragment: true },
                offset: 0,
                data: push_constants.to_bytes(),
            },
        );
        commands.push(
            RenderCommand::Draw {
                first_vertex: 0,
                end_vertex: 3,
                first_instance: 0,
                end_instance: 1,
            },
        );
        commands
    }
}

} // verus!
