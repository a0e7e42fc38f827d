use vstd::prelude::*;

verus! {

/// Denominator of every fractional scale: a compositor advertises a preferred
/// scale as `numerator / 120`.
pub const SCALE_DENOMINATOR: u32 = 120;

/// Exact value of a logical length scaled up to physical pixels, rounded to
/// the nearest integer with ties away from zero, before saturation.
pub open spec fn scaled_to_physical(len: u32, scale_num: u32) -> int {
    (len * scale_num + 60) / 120
}

/// Exact value of a physical length scaled down to logical pixels, rounded to
/// the nearest integer with ties away from zero, before saturation.
pub open spec fn scaled_to_logical(len: u32, scale_num: u32) -> int
    recommends
        scale_num > 0,
{
    (len * 120 + scale_num / 2) / (scale_num as int)
}

/// Clamps a non-negative mathematical length into `u32`.
pub open spec fn saturate_u32(v: int) -> u32
    recommends
        v >= 0,
{
    if v > u32::MAX { u32::MAX as u32 } else { v as u32 }
}

/// A size in pixels. `width` and `height` follow the compositor's logical
/// coordinate space unless a function says otherwise.
#[derive(Debug, Clone, Copy, PartialEq, Eq, Structural)]
pub struct Size {
    pub width: u32,
    pub height: u32,
}

impl Size {
    pub fn new(width: u32, height: u32) -> (s: Size)
        ensures
            s == (Size { width, height }),
    {
        Size { width, height }
    }

    /// Converts a logical size to a physical size under the fractional scale
    /// `scale_num / 120`, rounding each axis to the nearest integer with ties
    /// away from zero and saturating at `u32::MAX`.
    pub fn to_physical(&self, scale_num: u32) -> (r: Size)
        ensures
            r.width == saturate_u32(scaled_to_physical(self.width, scale_num)),
            r.height == saturate_u32(scaled_to_physical(self.height, scale_num)),
    {
        Size {
            width: sat_div_round(self.width, scale_num, 60, 120),
            height: sat_div_round(self.height, scale_num, 60, 120),
        }
    }

    /// Converts a physical size back to a logical size under the fractional
    /// scale `scale_num / 120`, rounding each axis to the nearest integer with
    /// ties away from zero and saturating at `u32::MAX`.
    pub fn to_logical(&self, scale_num: u32) -> (r: Size)
        requires
            scale_num > 0,
        ensures
            r.width == saturate_u32(scaled_to_logical(self.width, scale_num)),
            r.height == saturate_u32(scaled_to_logical(self.height, scale_num)),
    {
        Size {
            width: sat_div_round(self.width, 120, scale_num / 2, scale_num),
            height: sat_div_round(self.height, 120, scale_num / 2, scale_num),
        }
    }
}

/// Computes `(len * mul + add) / den` in 64-bit arithmetic and saturates the
/// quotient into `u32`.
fn sat_div_round(len: u32, mul: u32, add: u32, den: u32) -> (r: u32)
    requires
        den > 0,
    ensures
        r == saturate_u32((len * mul + add) / (den as int)),
{
    proof {
        assert((len as int) * (mul as int) + (add as int) <= 0xFFFF_FFFF_FFFF_FFFF)
            by (nonlinear_arith)
            requires
                len <= 0xFFFF_FFFF,
                mul <= 0xFFFF_FFFF,
                add <= 0xFFFF_FFFF,
        ;
    }
    let q: u64 = ((len as u64) * (mul as u64) + (add as u64)) / (den as u64);
    if q > u32::MAX as u64 {
        u32::MAX
    } else {
        q as u32
    }
}

/// Law: scaling a logical length to physical pixels and back under the same
/// fractional scale need not reproduce the original exactly, but it lands
/// within one unit, for every scale of at least `40 / 120` whenever the
/// physical value does not saturate. (For smaller scales a length can round
/// down to too few physical pixels to recover it within one unit.)
pub proof fn lemma_scale_round_trip(len: u32, scale_num: u32)
    requires
        scale_num >= 40,
        scaled_to_physical(len, scale_num) <= u32::MAX,
    ensures
        abs_int(
            saturate_u32(
                scaled_to_logical(saturate_u32(scaled_to_physical(len, scale_num)), scale_num),
            ) - len,
        ) <= 1,
{
    let num = scale_num as int;
    let a = (len as int) * num;
    let p = (a + 60) / 120;
    let h = num / 2;
    let l0 = (p * 120 + h) / num;

    vstd::arithmetic::div_mod::lemma_fundamental_div_mod(a + 60, 120);
    vstd::arithmetic::div_mod::lemma_mod_bound(a + 60, 120);
    let r1 = (a + 60) % 120;

    vstd::arithmetic::div_mod::lemma_fundamental_div_mod(p * 120 + h, num);
    vstd::arithmetic::div_mod::lemma_mod_bound(p * 120 + h, num);
    let r2 = (p * 120 + h) % num;

    vstd::arithmetic::div_mod::lemma_fundamental_div_mod(num, 2);
    vstd::arithmetic::div_mod::lemma_mod_bound(num, 2);

    assert(a >= 0) by (nonlinear_arith)
        requires
            a == (len as int) * num,
            len >= 0,
            num > 0,
    ;
    vstd::arithmetic::mul::lemma_mul_is_commutative(len as int, num);
    assert(num * l0 == num * (len as int) + 60 + h - r1 - r2);

    // The logical value is at most one above the original length.
    if l0 >= len + 2 {
        assert(num * l0 >= num * ((len as int) + 2)) by (nonlinear_arith)
            requires
                l0 >= (len as int) + 2,
                num > 0,
        ;
        assert(num * ((len as int) + 2) == num * (len as int) + 2 * num) by (nonlinear_arith);
        assert(60 + h - r1 - r2 >= 2 * num);
        assert(num == 40 && h == 20 && r1 == 0 && r2 == 0);
        assert(120 * p == a + 60);
        assert(a == 40 * (len as int)) by (nonlinear_arith)
            requires
                a == (len as int) * num,
                num == 40,
        ;
        assert(6 * p == 2 * (len as int) + 3);
        assert(false);
    }

    // The logical value is at least one below the original length.
    if l0 + 2 <= len {
        assert(num * l0 <= num * ((len as int) - 2)) by (nonlinear_arith)
            requires
                l0 <= (len as int) - 2,
                num > 0,
        ;
        assert(num * ((len as int) - 2) == num * (len as int) - 2 * num) by (nonlinear_arith);
        assert(r1 + r2 - 60 - h >= 2 * num);
        assert(false);
    }

    vstd::arithmetic::div_mod::lemma_div_pos_is_pos(a + 60, 120);
    vstd::arithmetic::div_mod::lemma_div_pos_is_pos(p * 120 + h, num);
}

/// The texture formats the pipeline can upload or import. `Bgra8Unorm` is
/// byte-compatible with the DRM `XRGB8888` layout (the `x` byte is unused,
/// not alpha).
#[derive(Debug, Clone, Copy, PartialEq, Eq, Structural)]
pub enum TextureFormat {
    Bgra8Unorm,
    Rgba8Unorm,
    R8Unorm,
}

/// An 8-bit RGBA color.
#[derive(Debug, Clone, Copy, PartialEq, Eq, Structural)]
pub struct Rgba8 {
    pub r: u8,
    pub g: u8,
    pub b: u8,
    pub a: u8,
}

impl Rgba8 {
    pub fn new(r: u8, g: u8, b: u8, a: u8) -> (c: Rgba8)
        ensures
            c == (Rgba8 { r, g, b, a }),
    {
        Rgba8 { r, g, b, a }
    }

    /// Opaque white, the color bound to textured primitives.
    pub fn white() -> (c: Rgba8)
        ensures
            c == (Rgba8 { r: 255u8, g: 255u8, b: 255u8, a: 255u8 }),
    {
        Rgba8 { r: 255, g: 255, b: 255, a: 255 }
    }
}

/// A point in logical pixel coordinates; `(0, 0)` is the top-left corner of
/// the screen. Texture coordinates reuse the same type with `0` and `1`
/// standing for the normalized corners of a texture.
#[derive(Debug, Clone, Copy, PartialEq, Eq, Structural)]
pub struct Vec2i {
    pub x: i64,
    pub y: i64,
}

impl Vec2i {
    pub fn new(x: i64, y: i64) -> (v: Vec2i)
        ensures
            v == (Vec2i { x, y }),
    {
        Vec2i { x, y }
    }

    /// True when both coordinates are small enough for the draw routines'
    /// intermediate arithmetic never to overflow.
    pub open spec fn in_range(self) -> bool {
        -0x4000_0000 <= self.x <= 0x4000_0000 && -0x4000_0000 <= self.y <= 0x4000_0000
    }
}

/// An axis-aligned rectangle; `min` is the top-left corner and `max` the
/// bottom-right corner.
#[derive(Debug, Clone, Copy, PartialEq, Eq, Structural)]
pub struct Recti {
    pub min: Vec2i,
    pub max: Vec2i,
}

impl Recti {
    pub fn new(min: Vec2i, max: Vec2i) -> (r: Recti)
        ensures
            r == (Recti { min, max }),
    {
        Recti { min, max }
    }

    pub open spec fn spec_top_left(self) -> Vec2i {
        self.min
    }

    pub open spec fn spec_top_right(self) -> Vec2i {
        Vec2i { x: self.max.x, y: self.min.y }
    }

    pub open spec fn spec_bottom_left(self) -> Vec2i {
        Vec2i { x: self.min.x, y: self.max.y }
    }

    pub open spec fn spec_bottom_right(self) -> Vec2i {
        self.max
    }

    pub fn top_left(&self) -> (v: Vec2i)
        ensures
            v == self.spec_top_left(),
    {
        self.min
    }

    pub fn top_right(&self) -> (v: Vec2i)
        ensures
            v == self.spec_top_right(),
    {
        Vec2i { x: self.max.x, y: self.min.y }
    }

    pub fn bottom_left(&self) -> (v: Vec2i)
        ensures
            v == self.spec_bottom_left(),
    {
        Vec2i { x: self.min.x, y: self.max.y }
    }

    pub fn bottom_right(&self) -> (v: Vec2i)
        ensures
            v == self.spec_bottom_right(),
    {
        self.max
    }

    /// True when all corner coordinates leave room for an outline to extend
    /// the rectangle without overflowing the line routine's bounds.
    pub open spec fn in_range(self) -> bool {
        &&& -0x2000_0000 <= self.min.x <= 0x2000_0000
        &&& -0x2000_0000 <= self.min.y <= 0x2000_0000
        &&& -0x2000_0000 <= self.max.x <= 0x2000_0000
        &&& -0x2000_0000 <= self.max.y <= 0x2000_0000
    }
}

/// How a filled rectangle is painted: sampled from a texture (a non-owning
/// handle; creation and destruction are someone else's responsibility) or
/// flat-colored.
#[derive(Debug, Clone, Copy)]
pub enum RectFill {
    TextureHandle(u32),
    Color(Rgba8),
}

/// One vertex of batched 2D geometry: a position in pixel space, a normalized
/// texture coordinate (`0` or `1` at rectangle corners), and an RGBA8 color.
#[derive(Debug, Clone, Copy, PartialEq, Eq, Structural)]
pub struct Vertex {
    pub position: Vec2i,
    pub tex_coord: Vec2i,
    pub color: Rgba8,
}

/// A batched draw call: the index range `start_index..end_index` into the
/// accumulated index buffer, and the texture to bind, if any.
#[derive(Debug, Clone, Copy)]
pub struct DrawCommand {
    pub start_index: u32,
    pub end_index: u32,
    /// A non-owning handle; creation and destruction are someone else's
    /// responsibility.
    pub texture_handle: Option<u32>,
}

/// True when `r` is the integer square root of `n`.
pub open spec fn is_sqrt(n: int, r: int) -> bool {
    0 <= r && r * r <= n && n < (r + 1) * (r + 1)
}

/// The integer square root of a non-negative value.
pub open spec fn sqrt_of(n: int) -> int {
    choose|r: int| is_sqrt(n, r)
}

/// The integer square root is unique, so any witness equals `sqrt_of`.
pub proof fn lemma_sqrt_unique(n: int, r: int)
    requires
        is_sqrt(n, r),
    ensures
        r == sqrt_of(n),
{
    assert(is_sqrt(n, sqrt_of(n)));
    let s = sqrt_of(n);
    assert(r <= s) by (nonlinear_arith)
        requires
            is_sqrt(n, r),
            is_sqrt(n, s),
    ;
    assert(s <= r) by (nonlinear_arith)
        requires
            is_sqrt(n, r),
            is_sqrt(n, s),
    ;
}

/// Computes the integer square root of `n` by binary search.
fn isqrt64(n: u64) -> (r: u64)
    ensures
        is_sqrt(n as int, r as int),
        r == sqrt_of(n as int),
{
    let mut lo: u64 = 0;
    let mut hi: u64 = 0x1_0000_0000;
    while hi - lo > 1
        invariant
            lo < hi <= 0x1_0000_0000,
            (lo as int) * (lo as int) <= n as int,
            (n as int) < (hi as int) * (hi as int),
        decreases hi - lo,
    {
        let mid: u64 = lo + (hi - lo) / 2;
        proof {
            assert((mid as int) * (mid as int) < 0x1_0000_0000_0000_0000) by (nonlinear_arith)
                requires
                    mid < 0x1_0000_0000,
            ;
        }
        if mid * mid <= n {
            lo = mid;
        } else {
            hi = mid;
        }
    }
    proof {
        assert((n as int) < 0x1_0000_0000_0000_0000);
        assert((0x1_0000_0000 as int) * (0x1_0000_0000 as int) == 0x1_0000_0000_0000_0000)
            by (nonlinear_arith);
        lemma_sqrt_unique(n as int, lo as int);
    }
    lo
}

/// The absolute value of an integer.
pub open spec fn abs_int(v: int) -> int {
    if v >= 0 { v } else { -v }
}

/// The sign of an integer: `-1`, `0`, or `1`.
pub open spec fn sign_int(v: int) -> int {
    if v > 0 { 1 } else if v < 0 { -1 } else { 0 }
}

/// The vertex position offset away from the center of a line caused by its
/// width: the unit perpendicular of the segment `a -> b`, scaled by half the
/// width. A degenerate segment yields a zero offset. Divisions truncate
/// toward zero on their non-negative operands.
pub open spec fn line_half_offset(a: Vec2i, b: Vec2i, width: int) -> (int, int) {
    let dx = b.x - a.x;
    let dy = b.y - a.y;
    let len = sqrt_of(dx * dx + dy * dy);
    if len == 0 {
        (0, 0)
    } else {
        (0 - sign_int(dy) * ((abs_int(dy) * width) / (2 * len)),
        sign_int(dx) * ((abs_int(dx) * width) / (2 * len)))
    }
}

/// The color and texture handle a fill resolves to: flat fills keep their
/// color and bind no texture; textured fills bind the handle and are drawn
/// with opaque white.
pub open spec fn rect_fill_parts(fill: RectFill) -> (Rgba8, Option<u32>) {
    match fill {
        RectFill::Color(c) => (c, None::<u32>),
        RectFill::TextureHandle(t) => ((Rgba8 { r: 255u8, g: 255u8, b: 255u8, a: 255u8 }), Some(t)),
    }
}

/// The four vertices of one quad for a line from `a` to `b`, in the order
/// top-left, top-right, bottom-right, bottom-left.
pub open spec fn line_quad_vertices(a: Vec2i, b: Vec2i, width: int, color: Rgba8) -> Seq<Vertex> {
    let (ox, oy) = line_half_offset(a, b, width);
    seq![
        (Vertex {
            position: (Vec2i { x: (a.x - ox) as i64, y: (a.y - oy) as i64 }),
            tex_coord: (Vec2i { x: 0, y: 0 }),
            color,
        }),
        (Vertex {
            position: (Vec2i { x: (b.x - ox) as i64, y: (b.y - oy) as i64 }),
            tex_coord: (Vec2i { x: 1, y: 0 }),
            color,
        }),
        (Vertex {
            position: (Vec2i { x: (b.x + ox) as i64, y: (b.y + oy) as i64 }),
            tex_coord: (Vec2i { x: 1, y: 1 }),
            color,
        }),
        (Vertex {
            position: (Vec2i { x: (a.x + ox) as i64, y: (a.y + oy) as i64 }),
            tex_coord: (Vec2i { x: 0, y: 1 }),
            color,
        }),
    ]
}

/// The four corner vertices of a filled rectangle, in the order top-left,
/// top-right, bottom-right, bottom-left.
pub open spec fn rect_quad_vertices(rect: Recti, fill: RectFill) -> Seq<Vertex> {
    let (color, _) = rect_fill_parts(fill);
    seq![
        (Vertex { position: rect.spec_top_left(), tex_coord: (Vec2i { x: 0, y: 0 }), color }),
        (Vertex { position: rect.spec_top_right(), tex_coord: (Vec2i { x: 1, y: 0 }), color }),
        (Vertex { position: rect.spec_bottom_right(), tex_coord: (Vec2i { x: 1, y: 1 }), color }),
        (Vertex { position: rect.spec_bottom_left(), tex_coord: (Vec2i { x: 0, y: 1 }), color }),
    ]
}

/// The six indices of one quad whose four vertices start at `base`: two
/// triangles, top-left/top-right/bottom-right and
/// bottom-right/bottom-left/top-left.
pub open spec fn quad_indices(base: int) -> Seq<u32> {
    seq![
        base as u32,
        (base + 1) as u32,
        (base + 2) as u32,
        (base + 2) as u32,
        (base + 3) as u32,
        base as u32,
    ]
}

/// The draw command closing one quad whose six indices start at `start`.
pub open spec fn quad_command(start: int, texture_handle: Option<u32>) -> DrawCommand {
    DrawCommand { start_index: start as u32, end_index: (start + 6) as u32, texture_handle }
}

/// Per-frame accumulation of vertices, 32-bit indices, and batched draw
/// commands. Every push closes exactly one draw command; there is no
/// cross-primitive batching by design.
#[derive(Debug)]
pub struct DrawBuffer {
    pub vertices: Vec<Vertex>,
    pub indices: Vec<u32>,
    /// Indices appended since the last closed draw command. A well-formed
    /// buffer returns to zero after every public push.
    pub pending_indices: usize,
    pub draw_commands: Vec<DrawCommand>,
}

impl Default for DrawBuffer {
    /// An empty draw buffer.
    fn default() -> (r: DrawBuffer)
        ensures
            r.wf(),
            r.vertices@.len() == 0,
            r.indices@.len() == 0,
            r.pending_indices == 0,
            r.draw_commands@.len() == 0,
    {
        DrawBuffer {
            vertices: Vec::new(),
            indices: Vec::new(),
            pending_indices: 0,
            draw_commands: Vec::new(),
        }
    }
}

/// Relates a draw buffer before and after pushing one line from `a` to `b`.
pub open spec fn after_push_line(
    pre: DrawBuffer,
    post: DrawBuffer,
    a: Vec2i,
    b: Vec2i,
    width: int,
    color: Rgba8,
) -> bool {
    &&& post.vertices@ == pre.vertices@ + line_quad_vertices(a, b, width, color)
    &&& post.indices@ == pre.indices@ + quad_indices(pre.vertices@.len() as int)
    &&& post.draw_commands@ == pre.draw_commands@.push(
        quad_command(pre.indices@.len() as int, None::<u32>),
    )
    &&& post.pending_indices == 0
}

/// Relates a draw buffer before and after pushing one filled rectangle.
pub open spec fn after_push_rect_filled(
    pre: DrawBuffer,
    post: DrawBuffer,
    rect: Recti,
    fill: RectFill,
) -> bool {
    &&& post.vertices@ == pre.vertices@ + rect_quad_vertices(rect, fill)
    &&& post.indices@ == pre.indices@ + quad_indices(pre.vertices@.len() as int)
    &&& post.draw_commands@ == pre.draw_commands@.push(
        quad_command(pre.indices@.len() as int, rect_fill_parts(fill).1),
    )
    &&& post.pending_indices == 0
}

/// Relates a draw buffer before and after pushing one outlined rectangle:
/// four unjoined line quads (top, bottom, right, left), each edge offset
/// outward by half the outline width and the horizontal edges extended by the
/// full width.
pub open spec fn after_push_rect_outlined(
    pre: DrawBuffer,
    post: DrawBuffer,
    rect: Recti,
    width: int,
    color: Rgba8,
) -> bool {
    let off = width / 2;
    let tl = rect.spec_top_left();
    let tr = rect.spec_top_right();
    let bl = rect.spec_bottom_left();
    let br = rect.spec_bottom_right();
    let t0 = (Vec2i { x: (tl.x - width) as i64, y: (tl.y - off) as i64 });
    let t1 = (Vec2i { x: (tr.x + width) as i64, y: (tr.y - off) as i64 });
    let b0 = (Vec2i { x: (bl.x - width) as i64, y: (bl.y + off) as i64 });
    let b1 = (Vec2i { x: (br.x + width) as i64, y: (br.y + off) as i64 });
    let r0 = (Vec2i { x: (tr.x + off) as i64, y: tr.y });
    let r1 = (Vec2i { x: (br.x + off) as i64, y: br.y });
    let l0 = (Vec2i { x: (tl.x - off) as i64, y: tl.y });
    let l1 = (Vec2i { x: (bl.x - off) as i64, y: bl.y });
    let nv = pre.vertices@.len() as int;
    let ni = pre.indices@.len() as int;
    &&& post.vertices@ == pre.vertices@ + line_quad_vertices(t0, t1, width, color)
        + line_quad_vertices(b0, b1, width, color) + line_quad_vertices(r0, r1, width, color)
        + line_quad_vertices(l0, l1, width, color)
    &&& post.indices@ == pre.indices@ + quad_indices(nv) + quad_indices(nv + 4) + quad_indices(
        nv + 8,
    ) + quad_indices(nv + 12)
    &&& post.draw_commands@ == pre.draw_commands@.push(quad_command(ni, None::<u32>)).push(
        quad_command(ni + 6, None::<u32>),
    ).push(quad_command(ni + 12, None::<u32>)).push(quad_command(ni + 18, None::<u32>))
    &&& post.pending_indices == 0
}

impl DrawBuffer {
    /// Structural consistency: committed draw commands address committed
    /// indices, and lengths stay within 32-bit index range.
    pub open spec fn wf(self) -> bool {
        &&& self.pending_indices <= self.indices@.len()
        &&& self.indices@.len() <= u32::MAX
        &&& self.vertices@.len() <= u32::MAX
        &&& forall|i: int|
            0 <= i < self.draw_commands@.len() ==> {
                let c = #[trigger] self.draw_commands@[i];
                c.start_index <= c.end_index && c.end_index <= self.indices@.len()
                    - self.pending_indices
            }
    }

    pub fn new() -> (r: DrawBuffer)
        ensures
            r.wf(),
            r.vertices@.len() == 0,
            r.indices@.len() == 0,
            r.pending_indices == 0,
            r.draw_commands@.len() == 0,
    {
        DrawBuffer { vertices: Vec::new(), indices: Vec::new(), pending_indices: 0, draw_commands: Vec::new() }
    }

    pub fn pending_count(&self) -> (r: usize)
        ensures
            r == self.pending_indices,
    {
        self.pending_indices
    }

    /// Empties the buffer. An uncommitted partial primitive is a logic error,
    /// so the buffer must have no pending indices.
    pub fn clear(&mut self)
        requires
            old(self).pending_indices == 0,
        ensures
            final(self).wf(),
            final(self).vertices@.len() == 0,
            final(self).indices@.len() == 0,
            final(self).pending_indices == 0,
            final(self).draw_commands@.len() == 0,
    {
        self.vertices.clear();
        self.indices.clear();
        self.draw_commands.clear();
    }

    fn push_vertex(&mut self, vertex: Vertex)
        ensures
            final(self).vertices@ == old(self).vertices@.push(vertex),
            final(self).indices == old(self).indices,
            final(self).pending_indices == old(self).pending_indices,
            final(self).draw_commands == old(self).draw_commands,
    {
        self.vertices.push(vertex);
    }

    fn push_triangle(&mut self, zero: u32, ichi: u32, ni: u32)
        requires
            old(self).indices@.len() + 3 <= u32::MAX,
            old(self).pending_indices + 3 <= u32::MAX,
        ensures
            final(self).indices@ == old(self).indices@.push(zero).push(ichi).push(ni),
            final(self).pending_indices == old(self).pending_indices + 3,
            final(self).vertices == old(self).vertices,
            final(self).draw_commands == old(self).draw_commands,
    {
        self.indices.push(zero);
        self.indices.push(ichi);
        self.indices.push(ni);
        self.pending_indices += 3;
    }

    /// Closes the pending indices into one draw command; does nothing when no
    /// indices are pending.
    fn commit(&mut self, texture_handle: Option<u32>)
        requires
            old(self).pending_indices <= old(self).indices@.len(),
            old(self).indices@.len() <= u32::MAX,
        ensures
            final(self).vertices == old(self).vertices,
            final(self).indices == old(self).indices,
            final(self).pending_indices == 0,
            old(self).pending_indices == 0 ==> final(self).draw_commands == old(self).draw_commands,
            old(self).pending_indices != 0 ==> final(self).draw_commands@ == old(
                self,
            ).draw_commands@.push(
                (DrawCommand {
                    start_index: (old(self).indices@.len() - old(self).pending_indices) as u32,
                    end_index: old(self).indices@.len() as u32,
                    texture_handle,
                }),
            ),
    {
        if self.pending_indices == 0 {
            return ;
        }
        let start_index = (self.indices.len() - self.pending_indices) as u32;
        let end_index = self.indices.len() as u32;
        self.draw_commands.push(DrawCommand { start_index, end_index, texture_handle });
        self.pending_indices = 0;
    }

    /// Appends one quad for the line from `a` to `b`, offset on both sides by
    /// half of `width` along the unit perpendicular, and closes it as one
    /// color-only draw command.
    pub fn push_line(&mut self, a: Vec2i, b: Vec2i, width: i64, color: Rgba8)
        requires
            old(self).wf(),
            old(self).pending_indices == 0,
            a.in_range(),
            b.in_range(),
            0 <= width <= 0x2000_0000,
            old(self).vertices@.len() + 4 <= u32::MAX,
            old(self).indices@.len() + 6 <= u32::MAX,
        ensures
            final(self).wf(),
            after_push_line(*old(self), *final(self), a, b, width as int, color),
    {
        let idx = self.vertices.len() as u32;

        let dx: i64 = b.x - a.x;
        let dy: i64 = b.y - a.y;
        let adx: u64 = if dx >= 0 { dx as u64 } else { (-dx) as u64 };
        let ady: u64 = if dy >= 0 { dy as u64 } else { (-dy) as u64 };
        proof {
            assert((adx as int) * (adx as int) + (ady as int) * (ady as int)
                <= 0x8000_0000_0000_0000) by (nonlinear_arith)
                requires
                    adx <= 0x8000_0000,
                    ady <= 0x8000_0000,
            ;
            assert((adx as int) * (adx as int) == (dx as int) * (dx as int)) by (nonlinear_arith)
                requires
                    adx as int == dx as int || adx as int == -(dx as int),
            ;
            assert((ady as int) * (ady as int) == (dy as int) * (dy as int)) by (nonlinear_arith)
                requires
                    ady as int == dy as int || ady as int == -(dy as int),
            ;
        }
        let len2: u64 = adx * adx + ady * ady;
        let len: u64 = isqrt64(len2);
        let (ox, oy): (i64, i64) = if len == 0 {
            (0i64, 0i64)
        } else {
            proof {
                assert((ady as int) * (width as int) <= 0x1000_0000_0000_0000) by (nonlinear_arith)
                    requires
                        ady <= 0x8000_0000,
                        0 <= width <= 0x2000_0000,
                ;
                assert((adx as int) * (width as int) <= 0x1000_0000_0000_0000) by (nonlinear_arith)
                    requires
                        adx <= 0x8000_0000,
                        0 <= width <= 0x2000_0000,
                ;
                assert(len < 0x1_0000_0000) by (nonlinear_arith)
                    requires
                        (len as int) * (len as int) <= len2 as int,
                        len2 <= 0x8000_0000_0000_0000,
                ;
            }
            let mx: u64 = (ady * (width as u64)) / (2 * len);
            let my: u64 = (adx * (width as u64)) / (2 * len);
            proof {
                vstd::arithmetic::div_mod::lemma_div_basics_5(
                    (ady as int) * (width as int),
                    2 * (len as int),
                );
                vstd::arithmetic::div_mod::lemma_div_basics_5(
                    (adx as int) * (width as int),
                    2 * (len as int),
                );
                assert(mx <= 0x1000_0000_0000_0000 && my <= 0x1000_0000_0000_0000);
            }
            let ox: i64 = if dy > 0 {
                -(mx as i64)
            } else if dy < 0 {
                mx as i64
            } else {
                0i64
            };
            let oy: i64 = if dx > 0 {
                my as i64
            } else if dx < 0 {
                -(my as i64)
            } else {
                0i64
            };
            (ox, oy)
        };
        proof {
            let (sox, soy) = line_half_offset(a, b, width as int);
            assert(ox == sox && oy == soy);
        }

        self.push_vertex(
            Vertex {
                position: Vec2i { x: a.x - ox, y: a.y - oy },
                tex_coord: Vec2i { x: 0, y: 0 },
                color,
            },
        );
        self.push_vertex(
            Vertex {
                position: Vec2i { x: b.x - ox, y: b.y - oy },
                tex_coord: Vec2i { x: 1, y: 0 },
                color,
            },
        );
        self.push_vertex(
            Vertex {
                position: Vec2i { x: b.x + ox, y: b.y + oy },
                tex_coord: Vec2i { x: 1, y: 1 },
                color,
            },
        );
        self.push_vertex(
            Vertex {
                position: Vec2i { x: a.x + ox, y: a.y + oy },
                tex_coord: Vec2i { x: 0, y: 1 },
                color,
            },
        );

        self.push_triangle(idx, idx + 1, idx + 2);
        self.push_triangle(idx + 2, idx + 3, idx);

        self.commit(None);

        proof {
            assert(self.vertices@ =~= old(self).vertices@ + line_quad_vertices(
                a,
                b,
                width as int,
                color,
            ));
            assert(self.indices@ =~= old(self).indices@ + quad_indices(
                old(self).vertices@.len() as int,
            ));
        }
    }

    /// Appends the four corners of `rect` as one quad and closes it as one
    /// draw command, textured or flat-colored according to `fill`. A
    /// degenerate rectangle (`min == max`) yields zero-area geometry.
    pub fn push_rect_filled(&mut self, rect: Recti, fill: RectFill)
        requires
            old(self).wf(),
            old(self).pending_indices == 0,
            old(self).vertices@.len() + 4 <= u32::MAX,
            old(self).indices@.len() + 6 <= u32::MAX,
        ensures
            final(self).wf(),
            after_push_rect_filled(*old(self), *final(self), rect, fill),
    {
        let idx = self.vertices.len() as u32;

        let (color, texture_handle): (Rgba8, Option<u32>) = match fill {
            RectFill::Color(color) => (color, None),
            RectFill::TextureHandle(texture_handle) => (Rgba8::white(), Some(texture_handle)),
        };

        self.push_vertex(
            Vertex { position: rect.top_left(), tex_coord: Vec2i { x: 0, y: 0 }, color },
        );
        self.push_vertex(
            Vertex { position: rect.top_right(), tex_coord: Vec2i { x: 1, y: 0 }, color },
        );
        self.push_vertex(
            Vertex { position: rect.bottom_right(), tex_coord: Vec2i { x: 1, y: 1 }, color },
        );
        self.push_vertex(
            Vertex { position: rect.bottom_left(), tex_coord: Vec2i { x: 0, y: 1 }, color },
        );

        self.push_triangle(idx, idx + 1, idx + 2);
        self.push_triangle(idx + 2, idx + 3, idx);

        self.commit(texture_handle);

        proof {
            assert(self.vertices@ =~= old(self).vertices@ + rect_quad_vertices(rect, fill));
            assert(self.indices@ =~= old(self).indices@ + quad_indices(
                old(self).vertices@.len() as int,
            ));
        }
    }

    /// Appends four unjoined line quads outlining `rect` (no miters at the
    /// corners), each closing its own draw command.
    pub fn push_rect_outlined(&mut self, rect: Recti, width: i64, color: Rgba8)
        requires
            old(self).wf(),
            old(self).pending_indices == 0,
            rect.in_range(),
            0 <= width <= 0x0800_0000,
            old(self).vertices@.len() + 16 <= u32::MAX,
            old(self).indices@.len() + 24 <= u32::MAX,
        ensures
            final(self).wf(),
            after_push_rect_outlined(*old(self), *final(self), rect, width as int, color),
    {
        let top_left = rect.top_left();
        let top_right = rect.top_right();
        let bottom_left = rect.bottom_left();
        let bottom_right = rect.bottom_right();

        let offset = width / 2;

        // horizontal edges: extended left and right by the outline width,
        // shifted outward by half of it.
        self.push_line(
            Vec2i { x: top_left.x - width, y: top_left.y - offset },
            Vec2i { x: top_right.x + width, y: top_right.y - offset },
            width,
            color,
        );
        self.push_line(
            Vec2i { x: bottom_left.x - width, y: bottom_left.y + offset },
            Vec2i { x: bottom_right.x + width, y: bottom_right.y + offset },
            width,
            color,
        );

        // vertical edges: shifted outward by half the outline width.
        self.push_line(
            Vec2i { x: top_right.x + offset, y: top_right.y },
            Vec2i { x: bottom_right.x + offset, y: bottom_right.y },
            width,
            color,
        );
        self.push_line(
            Vec2i { x: top_left.x - offset, y: top_left.y },
            Vec2i { x: bottom_left.x - offset, y: bottom_left.y },
            width,
            color,
        );

        self.commit(None);

        proof {
            assert(after_push_rect_outlined(*old(self), *self, rect, width as int, color)) by {
                assert(self.vertices@ =~= old(self).vertices@ + line_quad_vertices(
                    (Vec2i {
                        x: (rect.spec_top_left().x - width) as i64,
                        y: (rect.spec_top_left().y - width / 2) as i64,
                    }),
                    (Vec2i {
                        x: (rect.spec_top_right().x + width) as i64,
                        y: (rect.spec_top_right().y - width / 2) as i64,
                    }),
                    width as int,
                    color,
                ) + line_quad_vertices(
                    (Vec2i {
                        x: (rect.spec_bottom_left().x - width) as i64,
                        y: (rect.spec_bottom_left().y + width / 2) as i64,
                    }),
                    (Vec2i {
                        x: (rect.spec_bottom_right().x + width) as i64,
                        y: (rect.spec_bottom_right().y + width / 2) as i64,
                    }),
                    width as int,
                    color,
                ) + line_quad_vertices(
                    (Vec2i {
                        x: (rect.spec_top_right().x + width / 2) as i64,
                        y: rect.spec_top_right().y,
                    }),
                    (Vec2i {
                        x: (rect.spec_bottom_right().x + width / 2) as i64,
                        y: rect.spec_bottom_right().y,
                    }),
                    width as int,
                    color,
                ) + line_quad_vertices(
                    (Vec2i {
                        x: (rect.spec_top_left().x - width / 2) as i64,
                        y: rect.spec_top_left().y,
                    }),
                    (Vec2i {
                        x: (rect.spec_bottom_left().x - width / 2) as i64,
                        y: rect.spec_bottom_left().y,
                    }),
                    width as int,
                    color,
                ));
                assert(self.indices@ =~= old(self).indices@ + quad_indices(
                    old(self).vertices@.len() as int,
                ) + quad_indices(old(self).vertices@.len() + 4int) + quad_indices(
                    old(self).vertices@.len() + 8int,
                ) + quad_indices(old(self).vertices@.len() + 12int));
                assert(self.draw_commands@ =~= old(self).draw_commands@.push(
                    quad_command(old(self).indices@.len() as int, None::<u32>),
                ).push(quad_command(old(self).indices@.len() + 6int, None::<u32>)).push(
                    quad_command(old(self).indices@.len() + 12int, None::<u32>),
                ).push(quad_command(old(self).indices@.len() + 18int, None::<u32>)));
            }
        }
    }

    /// Pushes the filled interior, the outline, both, or neither, according
    /// to which arguments are present.
    pub fn push_rect(
        &mut self,
        rect: Recti,
        fill: Option<RectFill>,
        outline_width: Option<i64>,
        outline_color: Option<Rgba8>,
    )
        requires
            old(self).wf(),
            old(self).pending_indices == 0,
            rect.in_range(),
            outline_width matches Some(w) ==> 0 <= w <= 0x0800_0000,
            old(self).vertices@.len() + 20 <= u32::MAX,
            old(self).indices@.len() + 30 <= u32::MAX,
        ensures
            final(self).wf(),
            final(self).pending_indices == 0,
            match (fill, outline_width, outline_color) {
                (Some(f), Some(w), Some(c)) => exists|mid: DrawBuffer|
                    after_push_rect_filled(*old(self), mid, rect, f) && after_push_rect_outlined(
                        mid,
                        *final(self),
                        rect,
                        w as int,
                        c,
                    ),
                (Some(f), _, _) => after_push_rect_filled(*old(self), *final(self), rect, f),
                (None, Some(w), Some(c)) => after_push_rect_outlined(
                    *old(self),
                    *final(self),
                    rect,
                    w as int,
                    c,
                ),
                _ => *final(self) == *old(self),
            },
    {
        if let Some(fill) = fill {
            self.push_rect_filled(rect, fill);
        }
        let ghost mid = *self;
        if let (Some(width), Some(color)) = (outline_width, outline_color) {
            self.push_rect_outlined(rect, width, color);
            proof {
                if fill is Some {
                    assert(after_push_rect_filled(*old(self), mid, rect, fill->0)
                        && after_push_rect_outlined(mid, *self, rect, width as int, color));
                }
            }
        }
    }
}

} // verus!
