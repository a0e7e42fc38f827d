use bscreen::error::Error;
use bscreen::gfx::Size;
use bscreen::registry::{classify_interface, GlobalKind, Globals};
use bscreen::screens::{capture_poll_status, hide_all_overlays, init_screens, overlay_poll_pending, Screen};
use bscreen::wayland_overlay::{plan_overlay_setup, ConfigureAction, DestroyStep, Overlay};
use bscreen::wayland_screencopy::{
    build_buffer_params, check_plane_count, plan_import_texture, split_modifier, BufferDoneAction,
    Screencopy, ScreencopyDmabuf, ScreencopyState, DRM_FORMAT_XRGB8888,
};

const DESCRIPTOR_X: u32 = DRM_FORMAT_XRGB8888;

fn ready_screencopy(output: u64) -> Box<Screencopy> {
    let mut sc = Screencopy::new_boxed(output);
    sc.on_linux_dmabuf(DESCRIPTOR_X, 800, 600);
    match sc.on_buffer_done() {
        BufferDoneAction::NeedsImport(desc) => {
            assert_eq!((desc.format, desc.width, desc.height), (DESCRIPTOR_X, 800, 600));
        }
        BufferDoneAction::CopyExisting(_) => panic!("no import exists yet"),
    }
    sc.attach_dmabuf(ScreencopyDmabuf { gl_texture: 7, egl_image: 70, wl_buffer: 700 });
    sc.on_ready();
    sc
}

#[test]
fn test_capture_batch_reports_failed_output_index() {
    // output A converges: descriptor, buffer negotiation, ready
    let screen_a = Screen { output: 1, screencopy: Some(ready_screencopy(1)), overlay: None };

    // output B fails
    let mut sc_b = Screencopy::new_boxed(2);
    sc_b.on_failed();
    let screen_b = Screen { output: 2, screencopy: Some(sc_b), overlay: None };

    let screens = vec![screen_a, screen_b];
    match capture_poll_status(&screens) {
        Err(Error::CaptureFailed(index)) => assert_eq!(index, 1),
        other => panic!("expected the failed output's index, got {other:?}"),
    }

    // A stays ready: no rollback
    let sc_a = screens[0].screencopy.as_ref().unwrap();
    assert!(matches!(sc_a.state, ScreencopyState::Ready));
    let (texture, size) = sc_a.captured_texture().unwrap();
    assert_eq!(texture, 7);
    assert_eq!(size, Size::new(800, 600));
}

#[test]
fn test_capture_batch_counts_pending() {
    let pending = Screen { output: 1, screencopy: Some(Screencopy::new_boxed(1)), overlay: None };
    let done = Screen { output: 2, screencopy: Some(ready_screencopy(2)), overlay: None };
    let screens = vec![pending, done];
    assert_eq!(capture_poll_status(&screens).unwrap(), 1);
}

#[test]
fn test_descriptor_renegotiation_invalidates_import() {
    let mut sc = ready_screencopy(1);
    assert!(sc.dmabuf.is_some());

    // the same descriptor again keeps the import
    sc.on_linux_dmabuf(DESCRIPTOR_X, 800, 600);
    assert!(sc.dmabuf.is_some());

    // a differing descriptor invalidates it without rebuilding
    sc.on_linux_dmabuf(DESCRIPTOR_X, 1024, 600);
    assert!(sc.dmabuf.is_none());
    let desc = sc.dmabuf_desc.unwrap();
    assert_eq!((desc.width, desc.height), (1024, 600));
}

#[test]
fn test_capture_states_are_terminal() {
    let mut sc = Screencopy::new_boxed(1);
    sc.on_failed();
    assert!(matches!(sc.state, ScreencopyState::Failed));
    // a late ready event cannot resurrect a failed capture
    sc.on_ready();
    assert!(matches!(sc.state, ScreencopyState::Failed));

    let mut sc2 = Screencopy::new_boxed(2);
    sc2.on_ready();
    sc2.on_failed();
    assert!(matches!(sc2.state, ScreencopyState::Ready));
}

#[test]
fn test_plan_import_texture_rejects_unknown_fourcc() {
    let desc = bscreen::wayland_screencopy::ScreencopyDmabufDescriptor {
        format: 0x1234,
        width: 10,
        height: 10,
    };
    assert_eq!(plan_import_texture(&desc), Err(Error::UnsupportedFormat(0x1234)));

    let good = bscreen::wayland_screencopy::ScreencopyDmabufDescriptor {
        format: DESCRIPTOR_X,
        width: 10,
        height: 10,
    };
    let plan = plan_import_texture(&good).unwrap();
    assert_eq!((plan.width, plan.height), (10, 10));
}

#[test]
fn test_plane_count_must_be_one() {
    assert!(check_plane_count(1).is_ok());
    assert_eq!(check_plane_count(2), Err(Error::UnsupportedFormat(2)));
    assert_eq!(check_plane_count(0), Err(Error::UnsupportedFormat(0)));
}

#[test]
fn test_modifier_splits_into_high_and_low() {
    let (hi, lo) = split_modifier(0x0123_4567_89AB_CDEF);
    assert_eq!(hi, 0x0123_4567);
    assert_eq!(lo, 0x89AB_CDEF);
}

#[test]
fn test_buffer_params_follow_wire_order() {
    let desc = bscreen::wayland_screencopy::ScreencopyDmabufDescriptor {
        format: DESCRIPTOR_X,
        width: 800,
        height: 600,
    };
    let params = build_buffer_params(&desc, 5, 0, 3200, 0x00FF_0000_0000_00AA);
    assert_eq!(params.fd, 5);
    assert_eq!(params.plane_index, 0);
    assert_eq!(params.offset, 0);
    assert_eq!(params.stride, 3200);
    assert_eq!(params.modifier_hi, 0x00FF_0000);
    assert_eq!(params.modifier_lo, 0x0000_00AA);
    assert_eq!((params.width, params.height, params.format), (800, 600, DESCRIPTOR_X));
}

#[test]
fn test_capture_without_manager_is_unavailable() {
    let sc = Screencopy::new_boxed(1);
    assert_eq!(
        sc.capture(None).unwrap_err(),
        Error::ProtocolUnavailable(GlobalKind::ScreencopyManager)
    );
    let req = sc.capture(Some(42)).unwrap();
    assert_eq!((req.manager, req.include_cursor, req.output), (42, 1, 1));
}

#[test]
fn test_overlay_scale_before_configure() {
    // a preferred scale of 144/120 (1.2) arrives before any configure
    let mut overlay = Overlay::new_boxed(1, 10, 11, 12);
    let action = overlay.on_preferred_scale(144);
    assert_eq!(action, ConfigureAction::Wait);
    assert!(overlay.window_surface.is_none());

    // the first acknowledged configure with a logical size creates exactly
    // one window surface at 2304x1296 (1920x1.2 by 1080x1.2, rounded away
    // from zero)
    let reply = overlay.on_configure(99, 1920, 1080);
    assert_eq!(reply.ack_serial, 99);
    match reply.action {
        ConfigureAction::CreateWindowSurface { physical_size, viewport_destination } => {
            assert_eq!(physical_size, Size::new(2304, 1296));
            assert_eq!(viewport_destination, Size::new(1920, 1080));
        }
        other => panic!("expected a window surface request, got {other:?}"),
    }
    overlay.attach_window_surface(500, 501);
    assert_eq!(overlay.window_surface, Some(501));

    // a later scale-only update resizes but never recreates the surface
    let (surface, logical, scale) = overlay.configured_overlay().unwrap();
    assert_eq!((surface, logical, scale), (501, Size::new(1920, 1080), 144));

    let action = overlay.on_preferred_scale(120);
    match action {
        ConfigureAction::UpdateViewport { viewport_destination } => {
            assert_eq!(viewport_destination, Size::new(1920, 1080));
        }
        other => panic!("expected a viewport update, got {other:?}"),
    }
    assert_eq!(overlay.window_surface, Some(501));
    assert_eq!(overlay.window, Some(500));
}

#[test]
fn test_unconfigured_overlay_exposes_nothing() {
    let overlay = Overlay::new_boxed(1, 10, 11, 12);
    assert!(overlay.configured_overlay().is_none());
}

#[test]
fn test_overlay_setup_needs_all_managers() {
    let mut globals = Globals::new();
    globals.register(GlobalKind::Compositor, 1);
    globals.register(GlobalKind::FractionalScaleManager, 2);
    assert_eq!(
        plan_overlay_setup(&globals, 9).unwrap_err(),
        Error::ProtocolUnavailable(GlobalKind::LayerShell)
    );

    globals.register(GlobalKind::LayerShell, 3);
    globals.register(GlobalKind::Viewporter, 4);
    let setup = plan_overlay_setup(&globals, 9).unwrap();
    assert_eq!(setup.anchor, 15);
    assert_eq!(setup.exclusive_zone, -1);
    assert_eq!(setup.layer, 3);
    assert_eq!(setup.keyboard_interactivity, 1);
    assert_eq!(setup.output, 9);
}

#[test]
fn test_registry_classification_and_outputs() {
    assert_eq!(classify_interface("wl_compositor"), GlobalKind::Compositor);
    assert_eq!(classify_interface("zwlr_screencopy_manager_v1"), GlobalKind::ScreencopyManager);
    assert_eq!(classify_interface("zwp_linux_dmabuf_v1"), GlobalKind::LinuxDmabuf);
    assert_eq!(classify_interface("xdg_wm_base"), GlobalKind::Unknown);

    let mut globals = Globals::new();
    globals.register(classify_interface("wl_output"), 100);
    globals.register(classify_interface("wl_output"), 200);
    globals.register(classify_interface("ext_foreign_toplevel_list_v1"), 300);
    assert_eq!(globals.outputs, vec![100, 200]);
    assert!(globals.compositor.is_none());
}

#[test]
fn test_init_and_overlay_barrier() {
    let outputs = vec![31u64, 32u64];
    let mut screens = init_screens(&outputs);
    assert_eq!(screens.len(), 2);
    assert_eq!(screens[0].output, 31);
    assert!(screens[0].screencopy.is_none());

    for (i, screen) in screens.iter_mut().enumerate() {
        screen.overlay = Some(Overlay::new_boxed(screen.output, 10 + i as u64, 20, 30));
    }
    assert_eq!(overlay_poll_pending(&screens), 2);

    let mut ov = screens[0].overlay.take().unwrap();
    ov.on_configure(1, 640, 480);
    screens[0].overlay = Some(ov);
    assert_eq!(overlay_poll_pending(&screens), 1);
}

#[test]
fn test_hiding_keeps_surfaces_alive() {
    let outputs = vec![1u64, 2u64];
    let mut screens = init_screens(&outputs);
    for screen in screens.iter_mut() {
        let mut overlay = Overlay::new_boxed(screen.output, screen.output * 10, screen.output * 100, 7);
        overlay.on_configure(1, 640, 480);
        overlay.attach_window_surface(screen.output * 1000, screen.output * 1000 + 1);
        screen.overlay = Some(overlay);
    }

    let destroyed = hide_all_overlays(&mut screens);
    assert_eq!(destroyed, vec![100, 200]);
    for screen in screens.iter() {
        let overlay = screen.overlay.as_ref().unwrap();
        assert!(overlay.layer_surface.is_none());
        assert!(overlay.window_surface.is_some());
    }
}

#[test]
fn test_teardown_runs_in_reverse_creation_order() {
    let mut overlay = Overlay::new_boxed(1, 10, 11, 12);
    overlay.on_configure(1, 640, 480);
    overlay.attach_window_surface(20, 21);

    let steps = overlay.teardown_plan();
    assert_eq!(
        steps,
        vec![
            DestroyStep::WindowSurface(21),
            DestroyStep::Window(20),
            DestroyStep::Viewport(12),
            DestroyStep::LayerSurface(11),
            DestroyStep::Surface(10),
        ]
    );

    // a hidden overlay has no layer role left to destroy
    overlay.hide_layer_surface();
    let steps = overlay.teardown_plan();
    assert_eq!(
        steps,
        vec![
            DestroyStep::WindowSurface(21),
            DestroyStep::Window(20),
            DestroyStep::Viewport(12),
            DestroyStep::Surface(10),
        ]
    );
}
