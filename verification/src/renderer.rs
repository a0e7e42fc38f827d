use vstd::prelude::*;
use crate::gfx::{saturate_u32, scaled_to_physical, DrawBuffer, DrawCommand, Size};

verus! {

/// GL constants of the fixed pipeline state, as the GLES2 headers fix them.
pub const FLOAT: u32 = 0x1406;

pub const UNSIGNED_BYTE: u32 = 0x1401;

pub const BLEND: u32 = 0x0BE2;

pub const SRC_ALPHA: u32 = 0x0302;

pub const ONE_MINUS_SRC_ALPHA: u32 = 0x0303;

/// The usage hint of both vertex and index uploads: the full buffers are
/// re-uploaded every frame.
pub const STREAM_DRAW: u32 = 0x88E0;

/// The byte stride of one vertex as uploaded: two 32-bit floats of position,
/// two of texture coordinates, four normalized bytes of color.
pub const VERTEX_STRIDE: u32 = 20;

/// Issues batched draw calls: binds a fixed vertex layout, re-uploads the
/// full vertex and index buffer every frame with a streaming usage hint, sets
/// a pixel-space view size uniform for the vertex shader's projection, and
/// draws each command with its texture or the 1x1 opaque-white default.
#[derive(Debug, Clone, Copy, PartialEq, Eq, Structural)]
pub struct Renderer {
    pub a_position_location: i32,
    pub a_tex_coord_location: i32,
    pub a_color_location: i32,
    pub u_view_size_location: i32,
    pub vbo: u32,
    pub ebo: u32,
    pub program: u32,
    /// The texture bound for color-only primitives: 1x1 opaque white.
    pub default_white_tex: u32,
}

/// One attribute of the fixed vertex layout.
#[derive(Debug, Clone, Copy, PartialEq, Eq, Structural)]
pub struct VertexAttribute {
    pub location: i32,
    pub components: u32,
    pub ty: u32,
    pub normalized: bool,
    pub stride: u32,
    pub offset: u32,
}

/// One indexed draw call: the texture to bind, how many indices to draw, and
/// the byte offset of the first index in the index buffer.
#[derive(Debug, Clone, Copy, PartialEq, Eq, Structural)]
pub struct DrawCall {
    pub texture: u32,
    pub index_count: u32,
    pub byte_offset: u64,
}

/// The draw call a command resolves to: a command without a texture binds the
/// default white texture; the index count and byte offset follow from its
/// index range.
pub open spec fn spec_draw_call(cmd: DrawCommand, default_white_tex: u32) -> DrawCall {
    DrawCall {
        texture: match cmd.texture_handle {
            Some(t) => t,
            None => default_white_tex,
        },
        index_count: (cmd.end_index - cmd.start_index) as u32,
        byte_offset: (cmd.start_index * 4) as u64,
    }
}

/// One frame's GL work, in order: bind the program, enable source-alpha
/// blending, set the viewport to the physical size, set the view-size uniform
/// to the logical size, re-upload both buffers with the streaming usage hint,
/// then issue the calls in command order.
#[derive(Debug)]
pub struct DrawPlan {
    pub program: u32,
    pub blend_source: u32,
    pub blend_destination: u32,
    pub viewport: Size,
    pub view_size: Size,
    pub buffer_usage: u32,
    pub calls: Vec<DrawCall>,
}

impl Renderer {
    pub fn new(
        a_position_location: i32,
        a_tex_coord_location: i32,
        a_color_location: i32,
        u_view_size_location: i32,
        vbo: u32,
        ebo: u32,
        program: u32,
        default_white_tex: u32,
    ) -> (r: Renderer)
        ensures
            r == (Renderer {
                a_position_location,
                a_tex_coord_location,
                a_color_location,
                u_view_size_location,
                vbo,
                ebo,
                program,
                default_white_tex,
            }),
    {
        Renderer {
            a_position_location,
            a_tex_coord_location,
            a_color_location,
            u_view_size_location,
            vbo,
            ebo,
            program,
            default_white_tex,
        }
    }

    /// The fixed vertex layout, in the order it is bound: position as two
    /// floats, texture coordinates as two floats, color as four normalized
    /// bytes, all with the same stride.
    pub fn vertex_layout(&self) -> (r: Vec<VertexAttribute>)
        ensures
            r@ =~= seq![
                (VertexAttribute {
                    location: self.a_position_location,
                    components: 2u32,
                    ty: FLOAT,
                    normalized: false,
                    stride: VERTEX_STRIDE,
                    offset: 0u32,
                }),
                (VertexAttribute {
                    location: self.a_tex_coord_location,
                    components: 2u32,
                    ty: FLOAT,
                    normalized: false,
                    stride: VERTEX_STRIDE,
                    offset: 8u32,
                }),
                (VertexAttribute {
                    location: self.a_color_location,
                    components: 4u32,
                    ty: UNSIGNED_BYTE,
                    normalized: true,
                    stride: VERTEX_STRIDE,
                    offset: 16u32,
                }),
            ],
    {
        let mut layout: Vec<VertexAttribute> = Vec::new();
        layout.push(
            VertexAttribute {
                location: self.a_position_location,
                components: 2,
                ty: FLOAT,
                normalized: false,
                stride: VERTEX_STRIDE,
                offset: 0,
            },
        );
        layout.push(
            VertexAttribute {
                location: self.a_tex_coord_location,
                components: 2,
                ty: FLOAT,
                normalized: false,
                stride: VERTEX_STRIDE,
                offset: 8,
            },
        );
        layout.push(
            VertexAttribute {
                location: self.a_color_location,
                components: 4,
                ty: UNSIGNED_BYTE,
                normalized: true,
                stride: VERTEX_STRIDE,
                offset: 16,
            },
        );
        layout
    }

    /// Plans one frame: the viewport at the physical size the fractional
    /// scale gives, the view-size uniform at the logical size, and one
    /// indexed draw call per draw command, in order, each bound to its
    /// texture or the default white one.
    pub fn draw_plan(&self, logical_size: Size, scale_num: u32, draw_buffer: &DrawBuffer) -> (r:
        DrawPlan)
        requires
            draw_buffer.wf(),
        ensures
            r.program == self.program,
            r.blend_source == SRC_ALPHA,
            r.blend_destination == ONE_MINUS_SRC_ALPHA,
            r.buffer_usage == STREAM_DRAW,
            r.viewport.width == saturate_u32(scaled_to_physical(logical_size.width, scale_num)),
            r.viewport.height == saturate_u32(scaled_to_physical(logical_size.height, scale_num)),
            r.view_size == logical_size,
            r.calls@.len() == draw_buffer.draw_commands@.len(),
            forall|i: int|
                0 <= i < r.calls@.len() ==> #[trigger] r.calls@[i] == spec_draw_call(
                    draw_buffer.draw_commands@[i],
                    self.default_white_tex,
                ),
    {
        let viewport = logical_size.to_physical(scale_num);
        let mut calls: Vec<DrawCall> = Vec::new();
        let mut i: usize = 0;
        while i < draw_buffer.draw_commands.len()
            invariant
                draw_buffer.wf(),
                i <= draw_buffer.draw_commands@.len(),
                calls@.len() == i,
                forall|j: int|
                    0 <= j < i ==> #[trigger] calls@[j] == spec_draw_call(
                        draw_buffer.draw_commands@[j],
                        self.default_white_tex,
                    ),
            decreases draw_buffer.draw_commands@.len() - i,
        {
            let cmd = draw_buffer.draw_commands[i];
            let texture: u32 = match cmd.texture_handle {
                Some(t) => t,
                None => self.default_white_tex,
            };
            calls.push(
                DrawCall {
                    texture,
                    index_count: cmd.end_index - cmd.start_index,
                    byte_offset: (cmd.start_index as u64) * 4,
                },
            );
            i += 1;
        }
        DrawPlan {
            program: self.program,
            blend_source: SRC_ALPHA,
            blend_destination: ONE_MINUS_SRC_ALPHA,
            viewport,
            view_size: logical_size,
            buffer_usage: STREAM_DRAW,
            calls,
        }
    }
}

} // verus!
