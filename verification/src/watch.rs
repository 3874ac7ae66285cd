//! Building the shader crate, once or in watch mode, and swapping in what a
//! rebuild brings.

use crate::custom3d::{init_failure, plan_build, InitError, InitFailure, RenderState};
use crate::modules::{decoded, BuildError, BuildResult};
use crate::pipeline::PipelinePlan;
use vstd::prelude::*;

verus! {

/// The shader crate that the view is drawn by.
pub const SHADER_CRATE: &'static str = "mandelbrot";

/// The target profile that the shaders are built for.
pub const TARGET_PROFILE: &'static str = "spirv-unknown-vulkan1.1";

/// What a shader does when it panics.
#[derive(Clone, Copy, Debug, PartialEq, Eq, Structural)]
pub enum ShaderPanicStrategy {
    /// Return from the entry point without a trace.
    SilentExit,
    /// Print the panic message with debug printf, then return.
    DebugPrintfThenExit { print_inputs: bool, print_backtrace: bool },
}

/// How the shader compiler is to be run.
#[derive(Clone, Debug, PartialEq, Eq)]
pub struct ShaderBuild {
    /// The path of the shader crate, component by component.
    pub crate_path: Vec<String>,
    pub target: &'static str,
    pub print_metadata: bool,
    pub shader_panic_strategy: ShaderPanicStrategy,
    pub multimodule: bool,
    /// Whether to go on watching the sources and rebuild on every change.
    pub watch: bool,
}

impl ShaderBuild {
    /// The path of the shader crate as seen from the host crate's directory:
    /// up one level, then `shaders`, then the crate's name.
    pub open spec fn crate_path_spec(manifest_dir: Seq<char>) -> Seq<Seq<char>> {
        seq![manifest_dir, ".."@, "shaders"@, SHADER_CRATE@]
    }

    /// The build of the view's shader crate, for the host crate at
    /// `manifest_dir`. No metadata is printed. With debug printf a panicking
    /// shader prints its inputs and a backtrace before it returns, and every
    /// entry point gets a module of its own; without, it returns silently
    /// and one module holds all entry points.
    pub fn new(manifest_dir: &str, has_debug_printf: bool, watch: bool) -> (build: ShaderBuild)
        ensures
            build.crate_path@.len() == 4,
            forall|i: int|
                0 <= i < 4 ==> (#[trigger] build.crate_path@[i])@ == Self::crate_path_spec(
                    manifest_dir@,
                )[i],
            build.target@ == TARGET_PROFILE@,
            !build.print_metadata,
            build.shader_panic_strategy == (if has_debug_printf {
                ShaderPanicStrategy::DebugPrintfThenExit {
                    print_inputs: true,
                    print_backtrace: true,
                }
            } else {
                ShaderPanicStrategy::SilentExit
            }),
            build.multimodule == has_debug_printf,
            build.watch == watch,
    {
        let mut crate_path: Vec<String> = Vec::new();
        crate_path.push(String::from_str(manifest_dir));
        crate_path.push(String::from_str(".."));
        crate_path.push(String::from_str("shaders"));
        crate_path.push(String::from_str(SHADER_CRATE));
        let shader_panic_strategy = if has_debug_printf {
            ShaderPanicStrategy::DebugPrintfThenExit { print_inputs: true, print_backtrace: true }
        } else {
            ShaderPanicStrategy::SilentExit
        };
        ShaderBuild {
            crate_path,
            target: TARGET_PROFILE,
            print_metadata: false,
            shader_panic_strategy,
            multimodule: has_debug_printf,
            watch,
        }
    }
}

/// `rebuilds[i]` is the last of `rebuilds` that gives a plan on a device
/// with the limits of `render_state`.
pub open spec fn is_last_good<F>(
    render_state: RenderState<F>,
    rebuilds: Seq<Result<BuildResult, BuildError>>,
    i: int,
) -> bool {
    &&& 0 <= i < rebuilds.len()
    &&& init_failure(render_state.limits, rebuilds[i]) is None
    &&& forall|j: int|
        i < j < rebuilds.len() ==> init_failure(render_state.limits, rebuilds[j]) is Some
}

/// None of `rebuilds` gives a plan on a device with the limits of
/// `render_state`.
pub open spec fn none_good<F>(
    render_state: RenderState<F>,
    rebuilds: Seq<Result<BuildResult, BuildError>>,
) -> bool {
    forall|j: int|
        0 <= j < rebuilds.len() ==> init_failure(render_state.limits, rebuilds[j]) is Some
}

/// The failures of those of `rebuilds` that give no plan on a device with
/// the limits of `render_state`, in the order of the rebuilds.
pub open spec fn failures<F>(
    render_state: RenderState<F>,
    rebuilds: Seq<Result<BuildResult, BuildError>>,
) -> Seq<InitFailure>
    decreases rebuilds.len(),
{
    if rebuilds.len() == 0 {
        Seq::empty()
    } else {
        let before = failures(render_state, rebuilds.drop_last());
        match init_failure(render_state.limits, rebuilds.last()) {
            Some(failure) => before.push(failure),
            None => before,
        }
    }
}

/// The plan in force while the shaders are watched. A rebuild that gives a
/// plan replaces it; one that gives none leaves it in force.
#[derive(Clone, Debug, PartialEq, Eq)]
pub struct HotSwap<F> {
    render_state: RenderState<F>,
    plan: PipelinePlan<F>,
}

impl<F: Copy> HotSwap<F> {
    /// The device that the plans are drawn up for.
    pub closed spec fn render_state_spec(&self) -> RenderState<F> {
        self.render_state
    }

    /// The plan in force.
    pub closed spec fn plan_spec(&self) -> PipelinePlan<F> {
        self.plan
    }

    /// Starts with the plan of the first build.
    pub fn new(render_state: RenderState<F>, plan: PipelinePlan<F>) -> (swap: HotSwap<F>)
        ensures
            swap.render_state_spec() == render_state,
            swap.plan_spec() == plan,
    {
        HotSwap { render_state, plan }
    }

    /// The plan in force.
    pub fn plan(&self) -> (plan: &PipelinePlan<F>)
        ensures
            *plan == self.plan_spec(),
    {
        &self.plan
    }

    /// Takes in the result of one rebuild. Where it gives a plan, that plan
    /// is in force from now on; where it gives none, the plan in force stays
    /// and the failure is handed out.
    pub fn on_rebuild(&mut self, rebuilt: Result<BuildResult, BuildError>) -> (failure: Option<
        InitError,
    >)
        ensures
            final(self).render_state_spec() == old(self).render_state_spec(),
            match init_failure(old(self).render_state_spec().limits, rebuilt) {
                Some(f) => failure is Some && failure->0@ == f && final(self).plan_spec() == old(
                    self,
                ).plan_spec(),
                None => failure is None && final(self).plan_spec().is_plan_for(
                    decoded(rebuilt->Ok_0.sources()),
                    old(self).render_state_spec().target_format,
                ),
            },
    {
        match plan_build(self.render_state, rebuilt) {
            Ok(plan) => {
                self.plan = plan;
                None
            },
            Err(e) => Some(e),
        }
    }

    /// Takes in the rebuilds that came since the last frame, oldest first:
    /// the last one that gives a plan decides the plan in force, and where
    /// none gives one the plan in force stays. Tells whether the plan
    /// changed hands, and hands out the failure of every rebuild that gave
    /// no plan.
    pub fn prepare(&mut self, rebuilds: Vec<Result<BuildResult, BuildError>>) -> (outcome: (
        bool,
        Vec<InitError>,
    ))
        ensures
            final(self).render_state_spec() == old(self).render_state_spec(),
            outcome.0 <==> !none_good(old(self).render_state_spec(), rebuilds@),
            !outcome.0 ==> final(self).plan_spec() == old(self).plan_spec(),
            outcome.0 ==> exists|i: int|
                is_last_good(old(self).render_state_spec(), rebuilds@, i) && final(
                    self
                ).plan_spec().is_plan_for(
                    decoded(rebuilds@[i]->Ok_0.sources()),
                    old(self).render_state_spec().target_format,
                ),
            outcome.1@.map_values(|e: InitError| e@) == failures(
                old(self).render_state_spec(),
                rebuilds@,
            ),
    {
        let ghost all = rebuilds@;
        let ghost state = self.render_state;
        let ghost mut last: int = -1;
        let mut swapped: bool = false;
        let mut failed: Vec<InitError> = Vec::new();
        assert(all.take(0) =~= Seq::empty());
        assert(failed@.map_values(|e: InitError| e@) =~= failures(state, all.take(0)));
        for rebuilt in iter: rebuilds
            invariant
                iter.seq() == all,
                self.render_state == state,
                state == old(self).render_state,
                forall|j: int|
                    last < j < iter.index() ==> init_failure(state.limits, all[j]) is Some,
                swapped <==> last >= 0,
                !swapped ==> self.plan == old(self).plan,
                swapped ==> 0 <= last < iter.index() && init_failure(state.limits, all[last])
                    is None && self.plan.is_plan_for(
                    decoded(all[last]->Ok_0.sources()),
                    state.target_format,
                ),
                failed@.map_values(|e: InitError| e@) == failures(
                    state,
                    all.take(iter.index() as int),
                ),
        {
            let ghost k = iter.index() as int;
            let ghost before = failed@;
            proof {
                assert(all.take(k + 1).drop_last() =~= all.take(k));
                assert(all.take(k + 1).last() == all[k]);
            }
            match self.on_rebuild(rebuilt) {
                None => {
                    swapped = true;
                    proof {
                        last = k;
                    }
                },
                Some(failure) => {
                    failed.push(failure);
                    assert(failed@.map_values(|e: InitError| e@) =~= before.map_values(
                        |e: InitError| e@,
                    ).push(failure@));
                },
            }
        }
        proof {
            assert(all.take(all.len() as int) =~= all);
            if swapped {
                assert(is_last_good(state, all, last));
            }
        }
        (swapped, failed)
    }
}

} // verus!
