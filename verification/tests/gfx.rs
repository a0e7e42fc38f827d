use bscreen::gfx::{DrawBuffer, RectFill, Recti, Rgba8, Size, Vec2i};

#[test]
fn test_to_physical_rounds_away_from_zero() {
    // 1920 * 1.2 = 2304, 1080 * 1.2 = 1296
    assert_eq!(Size::new(1920, 1080).to_physical(144), Size::new(2304, 1296));
    // a tie: 2.5 rounds away from zero to 3
    assert_eq!(Size::new(2, 2).to_physical(150), Size::new(3, 3));
    // identity scale
    assert_eq!(Size::new(640, 480).to_physical(120), Size::new(640, 480));
}

#[test]
fn test_to_logical_rounds_away_from_zero() {
    assert_eq!(Size::new(2304, 1296).to_logical(144), Size::new(1920, 1080));
    assert_eq!(Size::new(3, 3).to_logical(150), Size::new(2, 2));
}

#[test]
fn test_scale_round_trip_within_one_unit() {
    for scale in [40u32, 60, 120, 125, 144, 180, 240] {
        for len in [0u32, 1, 2, 7, 99, 1080, 1920, 3841] {
            let size = Size::new(len, len);
            let back = size.to_physical(scale).to_logical(scale);
            assert!(back.width.abs_diff(len) <= 1, "len {len} scale {scale} gave {back:?}");
        }
    }
}

#[test]
fn test_push_rect_filled_color() {
    let mut buffer = DrawBuffer::default();
    let rect = Recti::new(Vec2i::new(10, 20), Vec2i::new(30, 40));
    buffer.push_rect_filled(rect, RectFill::Color(Rgba8::new(1, 2, 3, 4)));

    assert_eq!(buffer.vertices.len(), 4);
    assert_eq!(buffer.indices, vec![0, 1, 2, 2, 3, 0]);
    assert_eq!(buffer.pending_count(), 0);
    assert_eq!(buffer.draw_commands.len(), 1);
    let cmd = &buffer.draw_commands[0];
    assert_eq!((cmd.start_index, cmd.end_index), (0, 6));
    assert!(cmd.texture_handle.is_none());

    // corners in the order top-left, top-right, bottom-right, bottom-left
    assert_eq!(buffer.vertices[0].position, Vec2i::new(10, 20));
    assert_eq!(buffer.vertices[1].position, Vec2i::new(30, 20));
    assert_eq!(buffer.vertices[2].position, Vec2i::new(30, 40));
    assert_eq!(buffer.vertices[3].position, Vec2i::new(10, 40));
    assert_eq!(buffer.vertices[0].color, Rgba8::new(1, 2, 3, 4));
}

#[test]
fn test_push_rect_filled_textured_is_white() {
    let mut buffer = DrawBuffer::default();
    let rect = Recti::new(Vec2i::new(0, 0), Vec2i::new(8, 8));
    buffer.push_rect_filled(rect, RectFill::TextureHandle(77));

    assert_eq!(buffer.draw_commands[0].texture_handle, Some(77));
    assert_eq!(buffer.vertices[0].color, Rgba8::new(255, 255, 255, 255));
    assert_eq!(buffer.vertices[0].tex_coord, Vec2i::new(0, 0));
    assert_eq!(buffer.vertices[2].tex_coord, Vec2i::new(1, 1));
}

#[test]
fn test_push_rect_filled_zero_area() {
    // a degenerate rectangle produces zero-area geometry without panicking,
    // and the pending count returns to zero
    let mut buffer = DrawBuffer::default();
    let p = Vec2i::new(5, 5);
    buffer.push_rect_filled(Recti::new(p, p), RectFill::Color(Rgba8::new(0, 0, 0, 0)));

    assert_eq!(buffer.pending_count(), 0);
    assert_eq!(buffer.vertices.len(), 4);
    for v in buffer.vertices.iter() {
        assert_eq!(v.position, p);
    }
    assert_eq!(buffer.draw_commands.len(), 1);
}

#[test]
fn test_push_line_horizontal_offsets() {
    let mut buffer = DrawBuffer::default();
    // a horizontal line of width 4: the perpendicular offset is (0, 2)
    buffer.push_line(Vec2i::new(0, 0), Vec2i::new(10, 0), 4, Rgba8::new(9, 9, 9, 9));

    assert_eq!(buffer.pending_count(), 0);
    assert_eq!(buffer.vertices.len(), 4);
    assert_eq!(buffer.vertices[0].position, Vec2i::new(0, -2));
    assert_eq!(buffer.vertices[1].position, Vec2i::new(10, -2));
    assert_eq!(buffer.vertices[2].position, Vec2i::new(10, 2));
    assert_eq!(buffer.vertices[3].position, Vec2i::new(0, 2));
    assert_eq!(buffer.draw_commands.len(), 1);
}

#[test]
fn test_push_line_degenerate_is_flat() {
    let mut buffer = DrawBuffer::default();
    let p = Vec2i::new(3, 3);
    buffer.push_line(p, p, 10, Rgba8::new(1, 1, 1, 1));
    for v in buffer.vertices.iter() {
        assert_eq!(v.position, p);
    }
    assert_eq!(buffer.pending_count(), 0);
}

#[test]
fn test_push_rect_outlined_closes_four_commands() {
    let mut buffer = DrawBuffer::default();
    let rect = Recti::new(Vec2i::new(0, 0), Vec2i::new(100, 50));
    buffer.push_rect_outlined(rect, 2, Rgba8::new(5, 5, 5, 5));

    // four unjoined edge quads, one draw command each
    assert_eq!(buffer.pending_count(), 0);
    assert_eq!(buffer.vertices.len(), 16);
    assert_eq!(buffer.indices.len(), 24);
    assert_eq!(buffer.draw_commands.len(), 4);
    for (i, cmd) in buffer.draw_commands.iter().enumerate() {
        assert_eq!(cmd.start_index as usize, i * 6);
        assert_eq!(cmd.end_index as usize, i * 6 + 6);
        assert!(cmd.texture_handle.is_none());
    }
}

#[test]
fn test_push_rect_combines_fill_and_outline() {
    let mut buffer = DrawBuffer::default();
    let rect = Recti::new(Vec2i::new(0, 0), Vec2i::new(10, 10));
    buffer.push_rect(
        rect,
        Some(RectFill::Color(Rgba8::new(1, 1, 1, 1))),
        Some(2),
        Some(Rgba8::new(2, 2, 2, 2)),
    );
    assert_eq!(buffer.draw_commands.len(), 5);
    assert_eq!(buffer.pending_count(), 0);

    let mut only_fill = DrawBuffer::default();
    only_fill.push_rect(rect, Some(RectFill::Color(Rgba8::new(1, 1, 1, 1))), None, None);
    assert_eq!(only_fill.draw_commands.len(), 1);
}

#[test]
fn test_clear_empties_the_buffer() {
    let mut buffer = DrawBuffer::default();
    buffer.push_rect_filled(
        Recti::new(Vec2i::new(0, 0), Vec2i::new(4, 4)),
        RectFill::Color(Rgba8::new(0, 0, 0, 255)),
    );
    buffer.clear();
    assert!(buffer.vertices.is_empty());
    assert!(buffer.indices.is_empty());
    assert!(buffer.draw_commands.is_empty());
    assert_eq!(buffer.pending_count(), 0);
}
