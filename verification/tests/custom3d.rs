use shader_view::constants::{Scalar, ShaderConstants};
use shader_view::custom3d::{plan_build, Custom3d, InitError, RenderState};
use shader_view::frame::ButtonEvents;
use shader_view::modules::{BuildError, BuildResult, CompiledModule};
use shader_view::pipeline::{DeviceLimits, LayoutMismatch};
use shader_view::spirv::SpirvError;
use std::cell::Cell;

fn binary(word: u32) -> Vec<u8> {
    let mut bytes = vec![0x03, 0x02, 0x23, 0x07];
    bytes.extend_from_slice(&word.to_le_bytes());
    bytes
}

fn device(limit: u32) -> RenderState<u32> {
    RenderState {
        limits: DeviceLimits {
            max_push_constant_size: limit,
        },
        target_format: 44,
    }
}

fn s(x: f32) -> Scalar {
    Scalar::from_bits(x.to_bits())
}

fn f(x: Scalar) -> f32 {
    f32::from_bits(x.to_bits())
}

#[test]
fn no_device_no_view_and_no_build() {
    let built = Cell::new(false);
    let result = Custom3d::new::<u32, _>(None, || {
        built.set(true);
        Ok(BuildResult::SingleModule(binary(1)))
    });
    assert_eq!(result.err(), Some(InitError::DeviceUnavailable));
    assert!(!built.get());
}

#[test]
fn device_and_build_give_view_and_plan() {
    let runs = Cell::new(0);
    let (view, plan) = Custom3d::new(Some(device(128)), || {
        runs.set(runs.get() + 1);
        Ok(BuildResult::SingleModule(binary(1)))
    })
    .unwrap();
    assert_eq!(runs.get(), 1);
    assert_eq!(view.shader_constants(), ShaderConstants::initial());
    assert_eq!(plan.color_target, 44);
    assert_eq!(plan.vertex.module, 0);
    assert_eq!(plan.fragment.module, 0);
    assert_eq!(
        plan.modules.named_spv_modules,
        vec![CompiledModule {
            name: None,
            code: vec![0x0723_0203, 1]
        }]
    );
}

#[test]
fn multi_module_build_gives_one_module_per_stage() {
    let build = BuildResult::MultiModule(vec![
        ("main_fs".to_string(), binary(2)),
        ("main_vs".to_string(), binary(1)),
    ]);
    let (_, plan) = Custom3d::with_build(device(128), Ok(build)).unwrap();
    assert_eq!(plan.vertex.module, 1);
    assert_eq!(plan.fragment.module, 0);
    assert_eq!(plan.vertex_module().unwrap().code, vec![0x0723_0203, 1]);
    assert_eq!(plan.fragment_module().unwrap().code, vec![0x0723_0203, 2]);
}

#[test]
fn failed_build_is_a_build_error() {
    assert_eq!(
        Custom3d::with_build(device(128), Err(BuildError::CompileFailed)).err(),
        Some(InitError::Build(BuildError::CompileFailed))
    );
    assert_eq!(
        Custom3d::new(Some(device(128)), || Err(BuildError::CompileFailed)).err(),
        Some(InitError::Build(BuildError::CompileFailed))
    );
}

#[test]
fn malformed_module_is_a_build_error() {
    let build = BuildResult::MultiModule(vec![
        ("main_vs".to_string(), binary(1)),
        ("main_fs".to_string(), vec![1, 2, 3, 4]),
    ]);
    assert_eq!(
        Custom3d::with_build(device(128), Ok(build)).err(),
        Some(InitError::Build(BuildError::MalformedModule {
            index: 1,
            reason: SpirvError::WrongMagic
        }))
    );
}

#[test]
fn missing_entry_point_is_a_resolution_error() {
    let build = BuildResult::MultiModule(vec![("main_vs".to_string(), binary(1))]);
    assert_eq!(
        Custom3d::with_build(device(128), Ok(build)).err(),
        Some(InitError::Resolution {
            wanted_entry: "main_fs".to_string()
        })
    );
    let build = BuildResult::MultiModule(vec![("main_fs".to_string(), binary(1))]);
    assert_eq!(
        Custom3d::with_build(device(128), Ok(build)).err(),
        Some(InitError::Resolution {
            wanted_entry: "main_vs".to_string()
        })
    );
    let build = BuildResult::MultiModule(vec![]);
    assert_eq!(
        plan_build(device(128), Ok(build)).err(),
        Some(InitError::Resolution {
            wanted_entry: "main_vs".to_string()
        })
    );
}

#[test]
fn small_device_limit_is_a_layout_mismatch() {
    let build = BuildResult::SingleModule(binary(1));
    assert_eq!(
        Custom3d::with_build(device(32), Ok(build)).err(),
        Some(InitError::LayoutMismatch(LayoutMismatch {
            size: 64,
            limit: 32
        }))
    );
}

#[test]
fn errors_come_in_order() {
    // A missing entry point is told before a small limit.
    let build = BuildResult::MultiModule(vec![("main_vs".to_string(), binary(1))]);
    assert_eq!(
        plan_build(device(0), Ok(build)).err(),
        Some(InitError::Resolution {
            wanted_entry: "main_fs".to_string()
        })
    );
    // A malformed module is told before a missing entry point.
    let build = BuildResult::MultiModule(vec![("main_vs".to_string(), vec![])]);
    assert_eq!(
        plan_build(device(0), Ok(build)).err(),
        Some(InitError::Build(BuildError::MalformedModule {
            index: 0,
            reason: SpirvError::Empty
        }))
    );
}

#[test]
fn custom_painting_gives_the_block_as_of_now() {
    let (mut view, _) =
        Custom3d::with_build(device(128), Ok(BuildResult::SingleModule(binary(1)))).unwrap();
    let minus = |a: Scalar, b: Scalar| s(f(a) - f(b));
    let block = view.custom_painting(
        (s(5.0), s(0.0)),
        (800, 600),
        s(0.5),
        Some((s(1.0), s(2.0))),
        ButtonEvents::none(),
        minus,
    );
    assert_eq!(block, view.shader_constants());
    assert_eq!((block.width, block.height), (800, 600));
    assert_eq!((f(block.translate_x), f(block.translate_y)), (-5.0, 0.0));
    let block = view.custom_painting(
        (s(-2.0), s(3.0)),
        (800, 600),
        s(1.0),
        Some((s(1.0), s(2.0))),
        ButtonEvents::none(),
        minus,
    );
    assert_eq!((f(block.translate_x), f(block.translate_y)), (-3.0, -3.0));
    assert_eq!(f(block.time), 1.0);
}

#[test]
fn only_a_missing_device_is_passed_over_in_silence() {
    assert!(InitError::DeviceUnavailable.is_silent());
    assert!(!InitError::Build(BuildError::CompileFailed).is_silent());
    assert!(!InitError::Build(BuildError::MalformedModule {
        index: 0,
        reason: SpirvError::Empty
    })
    .is_silent());
    assert!(!InitError::Resolution {
        wanted_entry: "main_vs".to_string()
    }
    .is_silent());
    assert!(!InitError::LayoutMismatch(LayoutMismatch { size: 64, limit: 0 }).is_silent());
}
