use bscreen::egl::{check_status, choose_config, config_attributes, context_attributes, Error};
use bscreen::registry::{require_global, GlobalKind};
use bscreen::export::export_capture_png;
use bscreen::gfx::{DrawBuffer, RectFill, Recti, Rgba8, Size, TextureFormat, Vec2i};
use bscreen::gl::{describe_texture_format, plan_texture_setup, BGRA_EXT, LUMINANCE, NEAREST, RGBA, UNSIGNED_BYTE};
use bscreen::gl::{flip_read_rect, flip_rows};
use bscreen::input::{
    app_action_for_key, AppKeyAction, CursorShape, KeyboardEvent, KeyboardEventKind, KeyboardMods,
    PointerButton, Scancode, SerialTracker, SerialType,
};
use bscreen::renderer::{Renderer, FLOAT, VERTEX_STRIDE};

#[test]
fn test_texture_format_table() {
    let bgra = describe_texture_format(TextureFormat::Bgra8Unorm);
    assert_eq!(bgra.internal_format, BGRA_EXT as i32);
    assert_eq!(bgra.format, BGRA_EXT);
    assert_eq!(bgra.ty, UNSIGNED_BYTE);
    assert_eq!(bgra.block_size, 4);

    let rgba = describe_texture_format(TextureFormat::Rgba8Unorm);
    assert_eq!((rgba.format, rgba.block_size), (RGBA, 4));

    let r8 = describe_texture_format(TextureFormat::R8Unorm);
    assert_eq!((r8.format, r8.block_size), (LUMINANCE, 1));
}

#[test]
fn test_texture_setup_alignment_follows_block_size() {
    let plan = plan_texture_setup(800, 600, TextureFormat::R8Unorm);
    assert_eq!(plan.unpack_alignment, 1);
    assert_eq!((plan.width, plan.height), (800, 600));
    assert_eq!((plan.min_filter, plan.mag_filter), (NEAREST, NEAREST));

    let plan = plan_texture_setup(1, 1, TextureFormat::Bgra8Unorm);
    assert_eq!(plan.unpack_alignment, 4);
}

#[test]
fn test_config_attributes_request_es3_rgba8() {
    let attrs = config_attributes();
    assert_eq!(attrs.len(), 17);
    // 8-bit red and a 4-sample hint, terminated
    assert_eq!(attrs[0..2], [0x3024, 8]);
    assert_eq!(attrs[14..16], [0x3031, 4]);
    assert_eq!(attrs[16], 0x3038);
    assert_eq!(context_attributes(), vec![0x3098, 3, 0x3038]);
}

#[test]
fn test_first_config_wins() {
    assert_eq!(choose_config(&vec![]), None);
    assert_eq!(choose_config(&vec![11, 22, 33]), Some(11));
}

#[test]
fn test_failed_call_carries_platform_code() {
    assert_eq!(check_status(0, 0x3003), Err(Error::Raw(0x3003)));
    assert!(check_status(1, 0).is_ok());
}

#[test]
fn test_renderer_draw_plan() {
    let renderer = Renderer::new(0, 1, 2, 3, 100, 101, 102, 999);
    let mut buffer = DrawBuffer::default();
    buffer.push_rect_filled(
        Recti::new(Vec2i::new(0, 0), Vec2i::new(10, 10)),
        RectFill::TextureHandle(55),
    );
    buffer.push_rect_filled(
        Recti::new(Vec2i::new(0, 0), Vec2i::new(5, 5)),
        RectFill::Color(Rgba8::new(0, 0, 0, 255)),
    );

    let plan = renderer.draw_plan(Size::new(1920, 1080), 144, &buffer);
    assert_eq!(plan.program, 102);
    assert_eq!((plan.blend_source, plan.blend_destination), (0x0302, 0x0303));
    assert_eq!(plan.buffer_usage, 0x88E0);
    assert_eq!(plan.viewport, Size::new(2304, 1296));
    assert_eq!(plan.view_size, Size::new(1920, 1080));
    assert_eq!(plan.calls.len(), 2);
    // the textured command binds its texture; the color-only one binds the
    // default white texture
    assert_eq!((plan.calls[0].texture, plan.calls[0].index_count, plan.calls[0].byte_offset), (55, 6, 0));
    assert_eq!((plan.calls[1].texture, plan.calls[1].index_count, plan.calls[1].byte_offset), (999, 6, 24));
}

#[test]
fn test_renderer_vertex_layout() {
    let renderer = Renderer::new(4, 5, 6, 7, 0, 0, 0, 0);
    let layout = renderer.vertex_layout();
    assert_eq!(layout.len(), 3);
    assert_eq!((layout[0].location, layout[0].components, layout[0].ty), (4, 2, FLOAT));
    assert_eq!((layout[0].offset, layout[1].offset, layout[2].offset), (0, 8, 16));
    assert!(layout.iter().all(|a| a.stride == VERTEX_STRIDE));
    assert!(layout[2].normalized);
}

#[test]
fn test_scancodes_and_buttons() {
    assert_eq!(Scancode::from_int(1), Scancode::Esc);
    assert_eq!(Scancode::from_int(46), Scancode::C);
    assert_eq!(Scancode::from_int(30), Scancode::Unidentified(30));
    assert_eq!(PointerButton::from_int(0x110), PointerButton::Left);
    assert_eq!(PointerButton::from_int(0x111), PointerButton::Unidentified(0x111));
}

#[test]
fn test_cursor_shape_names() {
    assert_eq!(CursorShape::Default.name(), "default");
    assert_eq!(CursorShape::Crosshair.name(), "crosshair");
    assert_eq!(CursorShape::NwResize.name(), "nw-resize");
    assert_eq!(CursorShape::SeResize.name(), "se-resize");
}

#[test]
fn test_serial_tracker_tracks_each_type() {
    let mut tracker = SerialTracker::default();
    assert_eq!(tracker.get_serial(SerialType::KeyboardEnter), None);

    tracker.update_serial(SerialType::KeyboardEnter, 41);
    tracker.update_serial(SerialType::PointerEnter, 42);
    assert_eq!(tracker.get_serial(SerialType::KeyboardEnter), Some(41));
    assert_eq!(tracker.get_serial(SerialType::PointerEnter), Some(42));

    tracker.reset_serial(SerialType::KeyboardEnter);
    assert_eq!(tracker.get_serial(SerialType::KeyboardEnter), None);
    assert_eq!(tracker.get_serial(SerialType::PointerEnter), Some(42));
}

#[test]
fn test_png_export_round_trips() {
    // one red pixel, encoded and decoded back
    let pixels = vec![255u8, 0, 0, 255];
    let encoded = export_capture_png(&pixels, Size::new(1, 1)).expect("encoding succeeds");
    assert_ne!(encoded, pixels);

    let decoder = png::Decoder::new(std::io::Cursor::new(encoded));
    let mut reader = decoder.read_info().expect("valid png header");
    let mut out = vec![0u8; reader.output_buffer_size().unwrap()];
    let info = reader.next_frame(&mut out).expect("valid png data");
    assert_eq!((info.width, info.height), (1, 1));
    assert_eq!(info.color_type, png::ColorType::Rgba);
    assert_eq!(&out[..4], &pixels[..]);
}

#[test]
fn test_png_export_rejects_mismatched_length() {
    let pixels = vec![0u8; 7];
    assert!(export_capture_png(&pixels, Size::new(1, 1)).is_none());
    assert!(export_capture_png(&vec![0u8; 4], Size::new(0, 1)).is_none());
}

#[test]
fn test_flip_rows_reverses_row_order() {
    let pixels = vec![1u8, 2, 3, 4, 5, 6, 7, 8, 9, 10, 11, 12];
    assert_eq!(flip_rows(&pixels, 4), vec![9, 10, 11, 12, 5, 6, 7, 8, 1, 2, 3, 4]);
    // a single row stays as it is
    assert_eq!(flip_rows(&pixels, 12), pixels);
    assert_eq!(flip_rows(&Vec::new(), 4), Vec::<u8>::new());
}

#[test]
fn test_app_key_actions() {
    let press = |scancode: Scancode, ctrl: bool| KeyboardEvent {
        kind: KeyboardEventKind::Press { scancode },
        surface_id: 1,
        mods: KeyboardMods { ctrl },
    };
    assert_eq!(app_action_for_key(&press(Scancode::Esc, false)), AppKeyAction::RequestQuit);
    assert_eq!(app_action_for_key(&press(Scancode::C, true)), AppKeyAction::RequestCopy);
    assert_eq!(app_action_for_key(&press(Scancode::C, false)), AppKeyAction::Ignore);
    let release = KeyboardEvent {
        kind: KeyboardEventKind::Release { scancode: Scancode::Esc },
        surface_id: 1,
        mods: KeyboardMods { ctrl: false },
    };
    assert_eq!(app_action_for_key(&release), AppKeyAction::Ignore);
}

#[test]
fn test_flip_read_rect_mirrors_vertically() {
    let rect = Recti::new(Vec2i::new(10, 20), Vec2i::new(30, 50));
    let flipped = flip_read_rect(rect, 100);
    assert_eq!(flipped, Recti::new(Vec2i::new(10, 50), Vec2i::new(30, 80)));
}

#[test]
fn test_missing_global_names_itself() {
    assert_eq!(require_global(Some(8), GlobalKind::ScreencopyManager), Ok(8));
    assert_eq!(
        require_global(None, GlobalKind::LinuxDmabuf),
        Err(bscreen::error::Error::ProtocolUnavailable(GlobalKind::LinuxDmabuf))
    );
}

#[test]
fn test_platform_error_keeps_raw_code() {
    let err = check_status(0, 0x300B).unwrap_err();
    assert_eq!(err.into_platform_error(), bscreen::error::Error::PlatformApi(0x300B));
}
