use shader_view::custom3d::{plan_build, InitError, RenderState};
use shader_view::modules::{BuildError, BuildResult};
use shader_view::pipeline::{DeviceLimits, LayoutMismatch};
use shader_view::spirv::SpirvError;
use shader_view::watch::{HotSwap, ShaderBuild, ShaderPanicStrategy, SHADER_CRATE, TARGET_PROFILE};

fn device() -> RenderState<u8> {
    RenderState {
        limits: DeviceLimits {
            max_push_constant_size: 128,
        },
        target_format: 9,
    }
}

fn build(word: u32) -> Result<BuildResult, BuildError> {
    let mut bytes = vec![0x03, 0x02, 0x23, 0x07];
    bytes.extend_from_slice(&word.to_le_bytes());
    Ok(BuildResult::SingleModule(bytes))
}

fn bad_build() -> Result<BuildResult, BuildError> {
    Ok(BuildResult::SingleModule(vec![1, 2, 3]))
}

fn first() -> HotSwap<u8> {
    HotSwap::new(device(), plan_build(device(), build(1)).unwrap())
}

fn code_word(swap: &HotSwap<u8>) -> u32 {
    swap.plan().modules.named_spv_modules[0].code[1]
}

#[test]
fn shader_build_without_debug_printf() {
    let b = ShaderBuild::new("/work/host", false, true);
    assert_eq!(b.crate_path, vec!["/work/host", "..", "shaders", "mandelbrot"]);
    assert_eq!(b.target, "spirv-unknown-vulkan1.1");
    assert!(!b.print_metadata);
    assert_eq!(b.shader_panic_strategy, ShaderPanicStrategy::SilentExit);
    assert!(!b.multimodule);
    assert!(b.watch);
    assert_eq!(SHADER_CRATE, "mandelbrot");
    assert_eq!(TARGET_PROFILE, "spirv-unknown-vulkan1.1");
}

#[test]
fn shader_build_with_debug_printf() {
    let b = ShaderBuild::new("", true, false);
    assert_eq!(b.crate_path, vec!["", "..", "shaders", "mandelbrot"]);
    assert_eq!(
        b.shader_panic_strategy,
        ShaderPanicStrategy::DebugPrintfThenExit {
            print_inputs: true,
            print_backtrace: true
        }
    );
    assert!(b.multimodule);
    assert!(!b.watch);
}

#[test]
fn good_rebuild_is_swapped_in() {
    let mut swap = first();
    assert_eq!(code_word(&swap), 1);
    assert_eq!(swap.on_rebuild(build(2)), None);
    assert_eq!(code_word(&swap), 2);
    assert_eq!(swap.plan().color_target, 9);
}

#[test]
fn failed_rebuild_keeps_the_last_good_plan() {
    let mut swap = first();
    let before = swap.plan().clone();
    assert_eq!(
        swap.on_rebuild(Err(BuildError::CompileFailed)),
        Some(InitError::Build(BuildError::CompileFailed))
    );
    assert_eq!(swap.plan(), &before);
    assert_eq!(
        swap.on_rebuild(bad_build()),
        Some(InitError::Build(BuildError::MalformedModule {
            index: 0,
            reason: SpirvError::NotWordAligned
        }))
    );
    assert_eq!(swap.plan(), &before);
    assert_eq!(
        swap.on_rebuild(Ok(BuildResult::MultiModule(vec![]))),
        Some(InitError::Resolution {
            wanted_entry: "main_vs".to_string()
        })
    );
    assert_eq!(swap.plan(), &before);
}

#[test]
fn prepare_takes_the_last_good_rebuild() {
    let mut swap = first();
    let (swapped, failures) =
        swap.prepare(vec![build(2), build(3), Err(BuildError::CompileFailed)]);
    assert!(swapped);
    assert_eq!(failures, vec![InitError::Build(BuildError::CompileFailed)]);
    assert_eq!(code_word(&swap), 3);
    let (swapped, failures) = swap.prepare(vec![bad_build(), build(4)]);
    assert!(swapped);
    assert_eq!(
        failures,
        vec![InitError::Build(BuildError::MalformedModule {
            index: 0,
            reason: SpirvError::NotWordAligned
        })]
    );
    assert_eq!(code_word(&swap), 4);
}

#[test]
fn prepare_without_a_good_rebuild_changes_nothing() {
    let mut swap = first();
    let before = swap.plan().clone();
    assert_eq!(swap.prepare(vec![]), (false, vec![]));
    assert_eq!(swap.plan(), &before);
    let (swapped, failures) = swap.prepare(vec![
        Err(BuildError::CompileFailed),
        bad_build(),
        Ok(BuildResult::MultiModule(vec![])),
    ]);
    assert!(!swapped);
    assert_eq!(
        failures,
        vec![
            InitError::Build(BuildError::CompileFailed),
            InitError::Build(BuildError::MalformedModule {
                index: 0,
                reason: SpirvError::NotWordAligned
            }),
            InitError::Resolution {
                wanted_entry: "main_vs".to_string()
            },
        ]
    );
    assert_eq!(swap.plan(), &before);
}

#[test]
fn prepare_on_a_small_device_keeps_the_plan() {
    let small = RenderState {
        limits: DeviceLimits {
            max_push_constant_size: 8,
        },
        target_format: 9u8,
    };
    let mut swap = HotSwap::new(small, plan_build(device(), build(1)).unwrap());
    let (swapped, failures) = swap.prepare(vec![build(2)]);
    assert!(!swapped);
    assert_eq!(
        failures,
        vec![InitError::LayoutMismatch(LayoutMismatch { size: 64, limit: 8 })]
    );
    assert_eq!(code_word(&swap), 1);
}
