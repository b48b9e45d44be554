use sdl3_wrap::enums::SDL3RendererType;
use sdl3_wrap::events::EventKind;
use sdl3_wrap::events::EventRecord;
use sdl3_wrap::events::EVENT_TYPE_QUIT;
use sdl3_wrap::facade::MetadataError;
use sdl3_wrap::facade::SDL3Wrapper;
use sdl3_wrap::handles::SDL3RendererWrapper;
use sdl3_wrap::handles::SDL3WindowWrapper;

#[test]
fn window_wrap_round_trip_is_identity() {
    let w = SDL3WindowWrapper::wrap(0x7f00_1234).unwrap();
    assert_eq!(w.raw(), 0x7f00_1234);
    assert_eq!(w.into_raw(), 0x7f00_1234);
}

#[test]
fn renderer_wrap_round_trip_is_identity() {
    let r = SDL3RendererWrapper::wrap(0x5500_aa55).unwrap();
    assert_eq!(r.raw(), 0x5500_aa55);
}

#[test]
fn wrap_fails_exactly_on_null() {
    let sdl3 = SDL3Wrapper {};
    assert!(sdl3.sdl_wrap_window(0).is_none());
    assert!(sdl3.sdl_wrap_renderer(0).is_none());
    assert_eq!(sdl3.sdl_wrap_window(816).unwrap().raw(), 816);
    assert_eq!(sdl3.sdl_wrap_renderer(817).unwrap().raw(), 817);
}

#[test]
fn renderer_names_are_the_native_identifiers() {
    assert_eq!(SDL3RendererType::OpenGL.get_renderer_name(), "opengl");
    assert_eq!(SDL3RendererType::Vulkan.get_renderer_name(), "vulkan");
    assert_eq!(SDL3RendererType::Metal.get_renderer_name(), "metal");
    assert_eq!(SDL3RendererType::Direct3D.get_renderer_name(), "direct3d");
}

#[test]
fn window_request_carries_arguments_through() {
    let sdl3 = SDL3Wrapper {};
    let req = sdl3.sdl_create_window_request("T", 800, 600, 0).unwrap();
    assert_eq!(req.title, "T");
    assert_eq!(req.width, 800);
    assert_eq!(req.height, 600);
    assert_eq!(req.window_flags, 0);
}

#[test]
fn window_request_rejects_embedded_nul() {
    let sdl3 = SDL3Wrapper {};
    let err = sdl3
        .sdl_create_window_request("bad\0title", 800, 600, 0)
        .unwrap_err();
    assert_eq!(err.pos, 3);
    let err = sdl3.sdl_create_window_request("\0", 1, 1, 0).unwrap_err();
    assert_eq!(err.pos, 0);
}

#[test]
fn window_request_accepts_empty_title() {
    let sdl3 = SDL3Wrapper {};
    assert!(sdl3.sdl_create_window_request("", 800, 600, 0).is_ok());
}

#[test]
fn renderer_request_holds_window_reference_and_backend() {
    let sdl3 = SDL3Wrapper {};
    let window = SDL3WindowWrapper::wrap(424242).unwrap();
    let req = sdl3.sdl_create_renderer_request(&window, SDL3RendererType::Vulkan);
    assert_eq!(req.window_addr, 424242);
    assert_eq!(req.renderer_type, SDL3RendererType::Vulkan);
}

#[test]
fn metadata_request_carries_strings_through() {
    let sdl3 = SDL3Wrapper {};
    let req = sdl3
        .sdl_set_app_metadata_request("SDL3 Application", "1.0.0", "com.example.sdl3app")
        .unwrap();
    assert_eq!(req.app_name, "SDL3 Application");
    assert_eq!(req.app_version, "1.0.0");
    assert_eq!(req.app_identifier, "com.example.sdl3app");
}

#[test]
fn metadata_request_reports_first_offending_string() {
    let sdl3 = SDL3Wrapper {};
    let err = sdl3
        .sdl_set_app_metadata_request("a\0b", "1.0.0", "id")
        .unwrap_err();
    assert!(matches!(err, MetadataError::NulInName(n) if n.pos == 1));
    let err = sdl3
        .sdl_set_app_metadata_request("name", "1.\0", "id")
        .unwrap_err();
    assert!(matches!(err, MetadataError::NulInVersion(n) if n.pos == 2));
    let err = sdl3
        .sdl_set_app_metadata_request("name", "1.0.0", "\0id")
        .unwrap_err();
    assert!(matches!(err, MetadataError::NulInIdentifier(n) if n.pos == 0));
}

#[test]
fn classify_quit_tag_yields_quit() {
    let sdl3 = SDL3Wrapper {};
    let kind = sdl3.sdl_get_sdl_event(&EventRecord {
        event_type: EVENT_TYPE_QUIT,
    });
    assert_eq!(kind, EventKind::Quit);
}

#[test]
fn classify_other_tags_yields_non_quit() {
    let sdl3 = SDL3Wrapper {};
    for tag in [0u32, 0xff, 0x101, 0x300, u32::MAX] {
        let kind = sdl3.sdl_get_sdl_event(&EventRecord { event_type: tag });
        assert_eq!(kind, EventKind::Other(tag));
    }
}
