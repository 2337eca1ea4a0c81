//! Encodings of the video and timer registers: 15-bit colours, viewports,
//! timer settings, and the geometry-engine commands of a vertex list.
use vstd::prelude::*;

verus! {

/// A colour in the hardware's 15-bit format: five bits each of red, green and
/// blue, red lowest.
#[derive(Clone, Copy, PartialEq, Eq, Structural, Debug)]
pub struct Color(pub u16);

/// The colour word for 8-bit components: the top five bits of each.
pub open spec fn spec_rgb(r: u8, g: u8, b: u8) -> u16 {
    ((r >> 3u8) as u16) | (((g >> 3u8) as u16) << 5u16) | (((b >> 3u8) as u16) << 10u16)
}

impl Color {
    /// The colour closest below the given 8-bit components.
    pub fn new_rgb(r: u8, g: u8, b: u8) -> (c: Self)
        ensures
            c.0 == spec_rgb(r, g, b),
    {
        let r5: u8 = r >> 3u8;
        let g5: u8 = g & 0b11111000u8;
        let b5: u8 = b & 0b11111000u8;
        let v: u16 = (r5 as u16) | ((g5 as u16) << 2u16) | ((b5 as u16) << 7u16);
        assert(v == spec_rgb(r, g, b)) by (bit_vector)
            requires
                r5 == r >> 3u8,
                g5 == g & 0b11111000u8,
                b5 == b & 0b11111000u8,
                v == (r5 as u16) | ((g5 as u16) << 2u16) | ((b5 as u16) << 7u16),
        ;
        Color(v)
    }

    /// White.
    pub fn white() -> (c: Self)
        ensures
            c.0 == spec_rgb(0xFF, 0xFF, 0xFF),
    {
        Self::new_rgb(0xFF, 0xFF, 0xFF)
    }

    /// Black.
    pub fn black() -> (c: Self)
        ensures
            c.0 == spec_rgb(0, 0, 0),
    {
        Self::new_rgb(0, 0, 0)
    }

    /// The green of a confirmation.
    pub fn confirm_green() -> (c: Self)
        ensures
            c.0 == 0b0000111101010100,
    {
        Color(0b0000111101010100)
    }
}

/// Each component of a colour word can be read back as the top five bits of
/// the component it was made from, and the top bit stays clear.
pub proof fn law_rgb_components(r: u8, g: u8, b: u8)
    ensures
        spec_rgb(r, g, b) & 0x1F == r >> 3u8,
        (spec_rgb(r, g, b) >> 5u16) & 0x1F == g >> 3u8,
        (spec_rgb(r, g, b) >> 10u16) & 0x1F == b >> 3u8,
        spec_rgb(r, g, b) < 0x8000,
{
    assert({
        let v = ((r >> 3u8) as u16) | (((g >> 3u8) as u16) << 5u16) | (((b >> 3u8) as u16)
            << 10u16);
        &&& v & 0x1F == r >> 3u8
        &&& (v >> 5u16) & 0x1F == g >> 3u8
        &&& (v >> 10u16) & 0x1F == b >> 3u8
        &&& v < 0x8000
    }) by (bit_vector);
}

/// The 3D viewport: two corners, one byte per coordinate.
#[derive(Clone, Copy, PartialEq, Eq, Structural, Debug)]
pub struct Viewport {
    pub bits: u32,
}

/// The viewport word for the corners `(x0, y0)` and `(x1, y1)`.
pub open spec fn spec_viewport(x0: u8, y0: u8, x1: u8, y1: u8) -> u32 {
    (x0 as u32) | ((y0 as u32) << 8u32) | ((x1 as u32) << 16u32) | ((y1 as u32) << 24u32)
}

impl Viewport {
    /// The viewport with corners `(x0, y0)` and `(x1, y1)`.
    pub fn new(x0: u8, y0: u8, x1: u8, y1: u8) -> (v: Self)
        ensures
            v.bits == spec_viewport(x0, y0, x1, y1),
    {
        Viewport {
            bits: (x0 as u32) | ((y0 as u32) << 8u32) | ((x1 as u32) << 16u32) | ((y1 as u32)
                << 24u32),
        }
    }

    /// The whole 256 by 192 screen.
    pub fn whole_screen() -> (v: Self)
        ensures
            v.bits == spec_viewport(0, 0, 255, 191),
    {
        Self::new(0, 0, 255, 191)
    }
}

/// The four coordinates of a viewport occupy one byte each, in order.
pub proof fn law_viewport_bytes(x0: u8, y0: u8, x1: u8, y1: u8)
    ensures
        spec_viewport(x0, y0, x1, y1) & 0xFF == x0,
        (spec_viewport(x0, y0, x1, y1) >> 8u32) & 0xFF == y0,
        (spec_viewport(x0, y0, x1, y1) >> 16u32) & 0xFF == x1,
        spec_viewport(x0, y0, x1, y1) >> 24u32 == y1,
{
    assert({
        let v = (x0 as u32) | ((y0 as u32) << 8u32) | ((x1 as u32) << 16u32) | ((y1 as u32)
            << 24u32);
        &&& v & 0xFF == x0
        &&& (v >> 8u32) & 0xFF == y0
        &&& (v >> 16u32) & 0xFF == x1
        &&& v >> 24u32 == y1
    }) by (bit_vector);
}

/// Timer control: raise an interrupt on overflow.
pub const TIMER_ENABLE_IRQ: u16 = 1 << 6;
/// Timer control: run.
pub const TIMER_START: u16 = 1 << 7;
/// Timer control: count every cycle.
pub const TIMER_PRESCALE_1: u16 = 0;
/// Timer control: count every 64 cycles.
pub const TIMER_PRESCALE_64: u16 = 1;
/// Timer control: count every 256 cycles.
pub const TIMER_PRESCALE_256: u16 = 2;
/// Timer control: count every 1024 cycles.
pub const TIMER_PRESCALE_1024: u16 = 3;
/// Timer control: count overflows of the previous timer.
pub const TIMER_USE_COUNTUP: u16 = 1 << 2;

/// A timer register value: reload value low, control high.
#[derive(Clone, Copy, PartialEq, Eq, Structural, Debug)]
pub struct Timer(pub u32);

impl Timer {
    /// The register value for a reload value and control bits.
    pub fn new(reload: u16, control: u16) -> (t: Self)
        ensures
            t.0 == reload + control * 0x10000,
    {
        let v: u32 = (reload as u32) | ((control as u32) << 16u32);
        assert(v == reload + control * 0x10000) by (bit_vector)
            requires
                v == (reload as u32) | ((control as u32) << 16u32),
        ;
        Timer(v)
    }

    /// A stopped timer with reload value 0.
    pub fn reset() -> (t: Self)
        ensures
            t.0 == 0,
    {
        Self::new(0, 0)
    }
}

/// Matrix stack selector: projection.
pub const MATRIX_PROJECTION: u32 = 0;
/// Matrix stack selector: position.
pub const MATRIX_POSITION: u32 = 1;
/// Matrix stack selector: vector.
pub const MATRIX_VECTOR: u32 = 2;
/// Matrix stack selector: texture.
pub const MATRIX_TEXTURE: u32 = 3;

/// Primitive type of a vertex list: separate triangles.
pub const VERTEX_LIST_TRIS: u32 = 0;
/// Primitive type of a vertex list: separate quads.
pub const VERTEX_LIST_QUADS: u32 = 1;
/// Primitive type of a vertex list: triangle strip.
pub const VERTEX_LIST_TRI_STRIP: u32 = 2;
/// Primitive type of a vertex list: quad strip.
pub const VERTEX_LIST_QUAD_STRIP: u32 = 3;

/// One write to a port of the geometry engine.
#[derive(Clone, Copy, PartialEq, Eq, Structural, Debug)]
pub enum GeometryWrite {
    MatrixMode(u32),
    MatrixIdentity,
    BeginVertexList(u32),
    EndVertexList,
    SwapBuffers,
    VertexColor(u32),
    TextureAttributes(u32),
    TextureCoordinate(u32),
    CoordinateSingle(u32),
    CoordinateDouble(u32),
    CoordinateRelative(u32),
    MatrixLoad4x4(u32),
    MatrixScale(u32),
    MatrixTranslate(u32),
}

/// The writes that load a 4x4 matrix: its sixteen words, row by row.
pub fn load_matrix_4x4(matrix: [[u32; 4]; 4]) -> (ws: Vec<GeometryWrite>)
    ensures
        ws@.len() == 16,
        forall|i: int| 0 <= i < 16 ==> #[trigger] ws@[i] == GeometryWrite::MatrixLoad4x4(matrix@[i / 4]@[i % 4]),
{
    let mut ws: Vec<GeometryWrite> = Vec::new();
    let mut r: usize = 0;
    while r < 4
        invariant
            r <= 4,
            ws@.len() == 4 * r,
            forall|i: int| 0 <= i < 4 * r ==> #[trigger] ws@[i] == GeometryWrite::MatrixLoad4x4(matrix@[i / 4]@[i % 4]),
        decreases 4 - r,
    {
        let row = matrix[r];
        let mut c: usize = 0;
        while c < 4
            invariant
                r < 4,
                c <= 4,
                row == matrix@[r as int],
                ws@.len() == 4 * r + c,
                forall|i: int| 0 <= i < 4 * r + c ==> #[trigger] ws@[i] == GeometryWrite::MatrixLoad4x4(matrix@[i / 4]@[i % 4]),
            decreases 4 - c,
        {
            ws.push(GeometryWrite::MatrixLoad4x4(row[c]));
            proof {
                let i = 4 * r + c;
                assert(i / 4 == r as int && i % 4 == c as int);
            }
            c = c + 1;
        }
        r = r + 1;
    }
    ws
}

/// The writes that multiply the current matrix by a scaling: the three
/// factors as 32-bit words.
pub fn scale_matrix(x: i32, y: i32, z: i32) -> (ws: [GeometryWrite; 3])
    ensures
        ws@ == seq![GeometryWrite::MatrixScale(x as u32), GeometryWrite::MatrixScale(y as u32), GeometryWrite::MatrixScale(z as u32)],
{
    let ws = [GeometryWrite::MatrixScale(x as u32), GeometryWrite::MatrixScale(y as u32), GeometryWrite::MatrixScale(z as u32)];
    assert(ws@ =~= seq![GeometryWrite::MatrixScale(x as u32), GeometryWrite::MatrixScale(y as u32), GeometryWrite::MatrixScale(z as u32)]);
    ws
}

/// The writes that multiply the current matrix by a translation.
pub fn translate_matrix(x: i32, y: i32, z: i32) -> (ws: [GeometryWrite; 3])
    ensures
        ws@ == seq![GeometryWrite::MatrixTranslate(x as u32), GeometryWrite::MatrixTranslate(y as u32), GeometryWrite::MatrixTranslate(z as u32)],
{
    let ws = [GeometryWrite::MatrixTranslate(x as u32), GeometryWrite::MatrixTranslate(y as u32), GeometryWrite::MatrixTranslate(z as u32)];
    assert(ws@ =~= seq![GeometryWrite::MatrixTranslate(x as u32), GeometryWrite::MatrixTranslate(y as u32), GeometryWrite::MatrixTranslate(z as u32)]);
    ws
}

/// The word of a texture coordinate: `x` low, `y` high, both as 16 bits.
pub open spec fn spec_texture_coordinate(x: i16, y: i16) -> u32 {
    (x as u32) | ((y as u32) << 16u32)
}

/// The word of a vertex in the packed single-word format.
pub open spec fn spec_vertex_single(x: i16, y: i16, z: i16) -> u32 {
    ((x as u32) >> 6u32) | (((y as u32) << 4u32) & 0b11111111110000000000u32) | (((z as u32)
        << 14u32) & 0b111111111100000000000000000000u32)
}

/// The first word of a vertex in the two-word format: `x` low, `y` high.
pub open spec fn spec_vertex_double_xy(x: i16, y: i16) -> u32 {
    (x as u32) | ((y as u32) << 16u32)
}

/// The handle on the 3D hardware; it produces the writes of each operation.
pub struct VideoHardwareHandle;

/// The 3D hardware is already held by someone else.
pub struct VideoHardwareInUseError;

impl VideoHardwareHandle {
    /// A handle on the 3D hardware.
    pub fn new() -> (h: Self) {
        VideoHardwareHandle
    }

    /// The write that swaps the geometry buffers.
    pub fn next_frame(&self) -> (w: GeometryWrite)
        ensures
            w == GeometryWrite::SwapBuffers,
    {
        GeometryWrite::SwapBuffers
    }

    /// The writes that load an identity matrix into the projection, position,
    /// texture and vector stacks, in that order.
    pub fn init_matricies(&self) -> (ws: Vec<GeometryWrite>)
        ensures
            ws@ == seq![
                GeometryWrite::MatrixMode(MATRIX_PROJECTION),
                GeometryWrite::MatrixIdentity,
                GeometryWrite::MatrixMode(MATRIX_POSITION),
                GeometryWrite::MatrixIdentity,
                GeometryWrite::MatrixMode(MATRIX_TEXTURE),
                GeometryWrite::MatrixIdentity,
                GeometryWrite::MatrixMode(MATRIX_VECTOR),
                GeometryWrite::MatrixIdentity,
            ],
    {
        let mut ws: Vec<GeometryWrite> = Vec::new();
        ws.push(GeometryWrite::MatrixMode(MATRIX_PROJECTION));
        ws.push(GeometryWrite::MatrixIdentity);
        ws.push(GeometryWrite::MatrixMode(MATRIX_POSITION));
        ws.push(GeometryWrite::MatrixIdentity);
        ws.push(GeometryWrite::MatrixMode(MATRIX_TEXTURE));
        ws.push(GeometryWrite::MatrixIdentity);
        ws.push(GeometryWrite::MatrixMode(MATRIX_VECTOR));
        ws.push(GeometryWrite::MatrixIdentity);
        ws
    }

    /// Opens a vertex list of the given primitive type.
    pub fn create_vertex_list(&mut self, primitive_type: u32) -> (host: VertexListHost)
        ensures
            host.writes@ == seq![GeometryWrite::BeginVertexList(primitive_type)],
    {
        let mut writes: Vec<GeometryWrite> = Vec::new();
        writes.push(GeometryWrite::BeginVertexList(primitive_type));
        VertexListHost { writes }
    }
}

/// An open vertex list: the geometry writes it has produced so far.
pub struct VertexListHost {
    pub writes: Vec<GeometryWrite>,
}

impl VertexListHost {
    /// Sets the colour of the following vertices.
    pub fn set_vertex_color(&mut self, color: u32)
        ensures
            final(self).writes@ == old(self).writes@.push(GeometryWrite::VertexColor(color)),
    {
        self.writes.push(GeometryWrite::VertexColor(color));
    }

    /// Sets the texture attributes of the following polygons.
    pub fn set_texture(&mut self, texture: u32)
        ensures
            final(self).writes@ == old(self).writes@.push(GeometryWrite::TextureAttributes(texture)),
    {
        self.writes.push(GeometryWrite::TextureAttributes(texture));
    }

    /// Sets the texture coordinate of the next vertex.
    pub fn vertex_set_texture_coordinate(&mut self, x: i16, y: i16)
        ensures
            final(self).writes@ == old(self).writes@.push(
                GeometryWrite::TextureCoordinate(spec_texture_coordinate(x, y)),
            ),
    {
        let w: u32 = (x as u32) | ((y as u32) << 16u32);
        self.writes.push(GeometryWrite::TextureCoordinate(w));
    }

    /// Adds a vertex in the packed single-word format.
    pub fn add_vertex_single(&mut self, x: i16, y: i16, z: i16)
        ensures
            final(self).writes@ == old(self).writes@.push(
                GeometryWrite::CoordinateSingle(spec_vertex_single(x, y, z)),
            ),
    {
        let w: u32 = ((x as u32) >> 6u32) | (((y as u32) << 4u32) & 0b11111111110000000000u32)
            | (((z as u32) << 14u32) & 0b111111111100000000000000000000u32);
        self.writes.push(GeometryWrite::CoordinateSingle(w));
    }

    /// Adds a vertex in the two-word format: `x` and `y`, then `z`.
    pub fn add_vertex_double(&mut self, x: i16, y: i16, z: i16)
        ensures
            final(self).writes@ == old(self).writes@.push(
                GeometryWrite::CoordinateDouble(spec_vertex_double_xy(x, y)),
            ).push(GeometryWrite::CoordinateDouble(z as u32)),
    {
        let xy: u32 = (x as u32) | ((y as u32) << 16u32);
        self.writes.push(GeometryWrite::CoordinateDouble(xy));
        self.writes.push(GeometryWrite::CoordinateDouble(z as u32));
    }

    /// Adds a vertex relative to the previous one, given as a raw word.
    pub fn add_vertex_relative_raw(&mut self, value: u32)
        ensures
            final(self).writes@ == old(self).writes@.push(GeometryWrite::CoordinateRelative(value)),
    {
        self.writes.push(GeometryWrite::CoordinateRelative(value));
    }

    /// Closes the list: all its writes, ending with the end-of-list write.
    pub fn finish(self) -> (ws: Vec<GeometryWrite>)
        ensures
            ws@ == self.writes@.push(GeometryWrite::EndVertexList),
    {
        let mut ws = self.writes;
        ws.push(GeometryWrite::EndVertexList);
        ws
    }
}

/// A finished vertex list opens with its primitive type and closes with the
/// end-of-list write, whatever was added in between.
pub proof fn law_vertex_list_is_bracketed(host: VertexListHost, primitive_type: u32, added: Seq<GeometryWrite>)
    requires
        host.writes@ == seq![GeometryWrite::BeginVertexList(primitive_type)] + added,
    ensures
        host.writes@.push(GeometryWrite::EndVertexList)[0] == GeometryWrite::BeginVertexList(
            primitive_type,
        ),
        host.writes@.push(GeometryWrite::EndVertexList).last() == GeometryWrite::EndVertexList,
        host.writes@.push(GeometryWrite::EndVertexList).len() == added.len() + 2,
{
}

} // verus!
