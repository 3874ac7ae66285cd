//! The view: how it comes up, and the block of parameters that it keeps
//! current from frame to frame.

use crate::constants::{Scalar, ShaderConstants};
use crate::frame::ButtonEvents;
use crate::modules::{decoded, handle_compile_result, malformed, BuildError, BuildResult};
use crate::pipeline::{
    build, plan_obstacle, DeviceLimits, LayoutMismatch, PipelinePlan, PlanError, PlanObstacle,
};
use vstd::prelude::*;

verus! {

/// What the host knows of the device it renders with. `F` is the host's
/// colour format.
#[derive(Clone, Copy, Debug, PartialEq, Eq)]
pub struct RenderState<F> {
    pub limits: DeviceLimits,
    pub target_format: F,
}

/// Why the view did not come up.
#[derive(Clone, Debug, PartialEq, Eq)]
pub enum InitError {
    /// The host has no compatible device.
    DeviceUnavailable,
    /// The shaders did not build.
    Build(BuildError),
    /// An entry point is in none of the built modules.
    Resolution { wanted_entry: String },
    /// The push-constant block is larger than the device allows.
    LayoutMismatch(LayoutMismatch),
}

/// Why the view did not come up, as contracts speak of it.
pub ghost enum InitFailure {
    DeviceUnavailable,
    Build(BuildError),
    Resolution { wanted_entry: Seq<char> },
    LayoutMismatch(LayoutMismatch),
}

impl View for InitError {
    type V = InitFailure;

    open spec fn view(&self) -> InitFailure {
        match self {
            InitError::DeviceUnavailable => InitFailure::DeviceUnavailable,
            InitError::Build(e) => InitFailure::Build(*e),
            InitError::Resolution { wanted_entry } => InitFailure::Resolution {
                wanted_entry: wanted_entry@,
            },
            InitError::LayoutMismatch(e) => InitFailure::LayoutMismatch(*e),
        }
    }
}

impl InitError {
    /// Whether the host passes over the failure in silence. It does so where
    /// there is no device to render with; every other failure is reported.
    pub fn is_silent(&self) -> (silent: bool)
        ensures
            silent <==> self@ == InitFailure::DeviceUnavailable,
    {
        match self {
            InitError::DeviceUnavailable => true,
            _ => false,
        }
    }
}

/// The view's state: the push-constant block as of now.
#[derive(Clone, Copy, Debug, PartialEq, Eq)]
pub struct Custom3d {
    shader_constants: ShaderConstants,
}

/// The failure, if any, with which a finished build on a device gives no
/// plan: the build's own error, else the first module that is no shader
/// binary, else the first obstacle to a plan.
pub open spec fn init_failure(
    limits: DeviceLimits,
    built: Result<BuildResult, BuildError>,
) -> Option<InitFailure> {
    match built {
        Err(e) => Some(InitFailure::Build(e)),
        Ok(build) => match malformed(build.sources()) {
            Some(e) => Some(InitFailure::Build(e)),
            None => match plan_obstacle(decoded(build.sources()), limits) {
                Some(PlanObstacle::Resolution { wanted_entry }) => Some(
                    InitFailure::Resolution { wanted_entry },
                ),
                Some(PlanObstacle::Layout(mismatch)) => Some(InitFailure::LayoutMismatch(mismatch)),
                None => None,
            },
        },
    }
}

/// `result` is the plan that a finished build on a device gives: the failure
/// that `init_failure` names, or else the plan for the build's modules and
/// the device's colour format.
pub open spec fn is_plan_outcome<F>(
    render_state: RenderState<F>,
    built: Result<BuildResult, BuildError>,
    result: Result<PipelinePlan<F>, InitError>,
) -> bool {
    match init_failure(render_state.limits, built) {
        Some(failure) => result is Err && result->Err_0@ == failure,
        None => result is Ok && result->Ok_0.is_plan_for(
            decoded(built->Ok_0.sources()),
            render_state.target_format,
        ),
    }
}

/// `result` is what the view makes of a finished build on a device: the
/// failure that `init_failure` names, or else the view with its first block
/// and the plan for the build's modules and the device's colour format.
pub open spec fn is_init_outcome<F>(
    render_state: RenderState<F>,
    built: Result<BuildResult, BuildError>,
    result: Result<(Custom3d, PipelinePlan<F>), InitError>,
) -> bool {
    &&& is_plan_outcome(
        render_state,
        built,
        match result {
            Ok((_, plan)) => Ok(plan),
            Err(e) => Err(e),
        },
    )
    &&& result matches Ok((view, _)) ==> view@.wire_words() == ShaderConstants::initial_spec()
}

/// Draws up the plan that a finished build gives on a device: decodes the
/// modules, resolves the two entry points and checks the block against the
/// device's limit.
pub fn plan_build<F>(
    render_state: RenderState<F>,
    built: Result<BuildResult, BuildError>,
) -> (result: Result<PipelinePlan<F>, InitError>)
    ensures
        is_plan_outcome(render_state, built, result),
{
    let build_result = match built {
        Ok(b) => b,
        Err(e) => {
            return Err(InitError::Build(e));
        },
    };
    let modules = match handle_compile_result(&build_result) {
        Ok(m) => m,
        Err(e) => {
            return Err(InitError::Build(e));
        },
    };
    match build(render_state.limits, modules, render_state.target_format) {
        Ok(plan) => Ok(plan),
        Err(PlanError::Resolution(e)) => Err(
            InitError::Resolution { wanted_entry: e.wanted_entry },
        ),
        Err(PlanError::Layout(e)) => Err(InitError::LayoutMismatch(e)),
    }
}

impl View for Custom3d {
    type V = ShaderConstants;

    closed spec fn view(&self) -> ShaderConstants {
        self.shader_constants
    }
}

impl Custom3d {
    /// Brings the view up. Without a device the view is unavailable, and
    /// nothing is built. With one, `compile` is run once, and the view makes
    /// of its result what `with_build` makes of it.
    pub fn new<F, C: FnOnce() -> Result<BuildResult, BuildError>>(
        render_state: Option<RenderState<F>>,
        compile: C,
    ) -> (result: Result<(Custom3d, PipelinePlan<F>), InitError>)
        requires
            compile.requires(()),
        ensures
            render_state is None ==> result is Err && result->Err_0@
                == InitFailure::DeviceUnavailable,
            render_state matches Some(state) ==> exists|built: Result<BuildResult, BuildError>|
                compile.ensures((), built) && is_init_outcome(state, built, result),
    {
        match render_state {
            None => Err(InitError::DeviceUnavailable),
            Some(state) => {
                let built = compile();
                let ghost witness = built;
                let result = Self::with_build(state, built);
                assert(compile.ensures((), witness) && is_init_outcome(state, witness, result));
                result
            },
        }
    }

    /// Brings the view up on a device with a finished build: draws up the
    /// plan of the pipeline as `plan_build` does, and gives with it the view
    /// with its first block.
    pub fn with_build<F>(
        render_state: RenderState<F>,
        built: Result<BuildResult, BuildError>,
    ) -> (result: Result<(Custom3d, PipelinePlan<F>), InitError>)
        ensures
            is_init_outcome(render_state, built, result),
    {
        match plan_build(render_state, built) {
            Ok(plan) => Ok((Custom3d { shader_constants: ShaderConstants::initial() }, plan)),
            Err(e) => Err(e),
        }
    }

    /// The block as of now.
    pub fn shader_constants(&self) -> (block: ShaderConstants)
        ensures
            block == self@,
    {
        self.shader_constants
    }

    /// Takes in one frame's input and gives the block to paint the frame
    /// with: the view's own block, brought up to date as `on_input` says,
    /// whole and as of now.
    pub fn custom_painting<D: Fn(Scalar, Scalar) -> Scalar>(
        &mut self,
        drag_delta: (Scalar, Scalar),
        viewport_size: (u32, u32),
        elapsed_time: Scalar,
        cursor_pos: Option<(Scalar, Scalar)>,
        button_events: ButtonEvents,
        difference: D,
    ) -> (block: ShaderConstants)
        requires
            forall|a: Scalar, b: Scalar| difference.requires((a, b)),
        ensures
            block == final(self)@,
            block.is_after_input(
                old(self)@,
                drag_delta,
                viewport_size,
                elapsed_time,
                cursor_pos,
                button_events,
            ),
            difference.ensures((old(self)@.translate_x, drag_delta.0), block.translate_x),
            difference.ensures((old(self)@.translate_y, drag_delta.1), block.translate_y),
    {
        self.shader_constants.on_input(
            drag_delta,
            viewport_size,
            elapsed_time,
            cursor_pos,
            button_events,
            difference,
        );
        self.shader_constants
    }
}

} // verus!
