use shader_view::pipeline::{TriangleRenderResources, LABEL};
use shader_view::registry::Registry;

#[test]
fn new_registry_is_empty() {
    let registry: Registry<u32> = Registry::new();
    assert_eq!(registry.len(), 0);
    assert!(!registry.contains("custom3d"));
    assert_eq!(registry.get("custom3d"), None);
}

#[test]
fn registered_resources_are_found_again() {
    let mut registry = Registry::new();
    assert_eq!(registry.register("custom3d", 7), Ok(()));
    assert_eq!(registry.register("other", 8), Ok(()));
    assert_eq!(registry.len(), 2);
    assert!(registry.contains("custom3d"));
    assert_eq!(registry.get("custom3d"), Some(&7));
    assert_eq!(registry.get("other"), Some(&8));
    assert_eq!(registry.get("custom3"), None);
    assert_eq!(registry.get(""), None);
}

#[test]
fn nothing_is_registered_twice() {
    let mut registry = Registry::new();
    assert_eq!(registry.register(LABEL, "first"), Ok(()));
    for _ in 0..3 {
        assert_eq!(registry.register(LABEL, "again"), Err("again"));
    }
    assert_eq!(registry.len(), 1);
    assert_eq!(registry.get(LABEL), Some(&"first"));
}

#[test]
fn registry_holds_render_resources() {
    let mut registry = Registry::new();
    let resources = TriangleRenderResources {
        pipeline: 1u8,
        bind_group: 2u16,
        uniform_buffer: 3u32,
    };
    assert!(registry.register(LABEL, resources).is_ok());
    let found = registry.get(LABEL).unwrap();
    assert_eq!((found.pipeline, found.bind_group, found.uniform_buffer), (1, 2, 3));
}

#[test]
fn swap_puts_new_resources_in_the_place_of_old() {
    let mut registry = Registry::new();
    assert_eq!(registry.register("custom3d", 1), Ok(()));
    assert_eq!(registry.register("other", 2), Ok(()));
    assert_eq!(registry.swap("custom3d", 10), Ok(1));
    assert_eq!(registry.get("custom3d"), Some(&10));
    assert_eq!(registry.get("other"), Some(&2));
    assert_eq!(registry.len(), 2);
    assert_eq!(registry.swap("custom3d", 11), Ok(10));
    assert_eq!(registry.swap("other", 20), Ok(2));
    assert_eq!(registry.get("custom3d"), Some(&11));
    assert_eq!(registry.get("other"), Some(&20));
}

#[test]
fn swap_wants_a_registered_identifier() {
    let mut registry = Registry::new();
    assert_eq!(registry.swap("custom3d", 1), Err(1));
    assert_eq!(registry.len(), 0);
    assert_eq!(registry.register("custom3d", 2), Ok(()));
    assert_eq!(registry.swap("custom", 3), Err(3));
    assert_eq!(registry.get("custom3d"), Some(&2));
    assert_eq!(registry.len(), 1);
}
