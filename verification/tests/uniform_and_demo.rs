use renderer::engine_state::ExternalState;
use renderer::stub_demo::Demo;
use renderer::uniform::BindGroupBuilfer;

#[test]
fn builder_collects_bindings_in_order() {
    let b: BindGroupBuilfer<&str, u32> = BindGroupBuilfer::new();
    let b = b
        .with_uniform_buffer(0, 1, "camera")
        .with_uniform_buffer_range(1, 2, "lights", (256, 64))
        .with_uniform_buffer_range(2, 3, "lights", (512, 0));
    let (layouts, groups) = b.into_entries();
    assert_eq!(layouts.len(), 2 + 1);
    assert_eq!(groups.len(), 3);
    assert_eq!((layouts[0].binding, layouts[0].visibility), (0, 1));
    assert_eq!((layouts[1].binding, layouts[1].visibility), (1, 2));
    assert_eq!((layouts[2].binding, layouts[2].visibility), (2, 3));
    assert_eq!(
        (groups[0].binding, groups[0].buffer, groups[0].offset, groups[0].size),
        (0, "camera", 0, None)
    );
    assert_eq!(
        (groups[1].binding, groups[1].buffer, groups[1].offset, groups[1].size),
        (1, "lights", 256, Some(64))
    );
    assert_eq!(
        (groups[2].binding, groups[2].buffer, groups[2].offset, groups[2].size),
        (2, "lights", 512, None)
    );
}

#[test]
fn empty_builder() {
    let b: BindGroupBuilfer<u8, u8> = BindGroupBuilfer::new();
    let (layouts, groups) = b.into_entries();
    assert!(layouts.is_empty() && groups.is_empty());
}

#[test]
fn stub_demo_is_ready_at_first_poll() {
    let mut loading = Demo::start_loading();
    let demo = loading.simple_poll();
    assert!(demo.is_some());
    let mut demo = demo.unwrap();
    demo.tick(&ExternalState::default());
}
