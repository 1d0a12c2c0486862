//! The vertex-buffer lesson: a window of 800 by 400 pixels whose surface is
//! cleared to white and in which a triangle with a red, a green and a blue
//! corner is drawn from a vertex buffer.
//!
//! The vertex data is held as the bit patterns of its 32-bit floats; the
//! layout that tells the pipeline how to read it is described here too.

use vstd::prelude::*;
use vstd::endian::{endianness, Endian};

use crate::frame::{
    planned_config, plan_surface_config, set_size, with_size, caps_usable, needs_reconfigure, AppEvent, Command, FrameError,
    DrawCall, RenderStep, SurfaceCaps, SurfaceConfig, TextureUsage, lemma_preferred_format, PipelinePlan, is_triangle_pipeline,
    triangle_pipeline,
};

verus! {

/// Width of the window and of the first surface configuration.
pub const WINDOW_WIDTH: u32 = 800;

/// Height of the window and of the first surface configuration.
pub const WINDOW_HEIGHT: u32 = 400;

/// What the lesson keeps once the GPU is set up: the surface configuration.
/// (The pipeline and the vertex buffer are built from `MyVertex::desc` and
/// `vertex_bytes(&MyVertex::triangle_rgb())`.)
#[derive(Debug, Clone, Copy, PartialEq, Eq)]
pub struct Core {
    pub surface_cfg: SurfaceConfig,
}

/// The lesson's state: whether its window exists, and its GPU state once
/// set up.
#[derive(Debug, Clone, Copy, PartialEq, Eq)]
pub struct MyApp {
    pub has_window: bool,
    pub core: Option<Core>,
}

/// The draw call of every frame: the three vertices of the triangle, one
/// instance, the vertex buffer bound to slot 0.
pub open spec fn triangle_draw() -> DrawCall {
    DrawCall {
        vertex_start: 0,
        vertex_end: 3,
        instance_start: 0,
        instance_end: 1,
        vertex_buffer_slot: Some(0),
    }
}


/// Bit pattern of the 32-bit float 0.0.
pub const ZERO_BITS: u32 = 0x0000_0000;

/// Bit pattern of the 32-bit float 0.5.
pub const HALF_BITS: u32 = 0x3f00_0000;

/// Bit pattern of the 32-bit float -0.5.
pub const MINUS_HALF_BITS: u32 = 0xbf00_0000;

/// Bit pattern of the 32-bit float 1.0.
pub const ONE_BITS: u32 = 0x3f80_0000;

/// Number of 32-bit words in one vertex: three for the position, three for
/// the colour.
pub const WORDS_PER_VERTEX: usize = 6;

/// Size in bytes of one vertex in the vertex buffer.
pub const VERTEX_SIZE: u64 = 24;

/// One vertex of the triangle: a position and an RGB colour, each three
/// 32-bit floats held as their bit patterns, laid out in this order with no
/// padding.
#[derive(Debug, Clone, Copy, PartialEq, Eq)]
pub struct MyVertex {
    pub position: [u32; 3],
    pub color: [u32; 3],
}

/// How the pipeline reads one attribute of a vertex.
#[derive(Debug, Clone, Copy, PartialEq, Eq)]
pub enum VertexFormat {
    /// Three 32-bit floats.
    Float32x3,
}

/// Whether the pipeline steps through the buffer once per vertex or once
/// per instance.
#[derive(Debug, Clone, Copy, PartialEq, Eq)]
pub enum VertexStepMode {
    Vertex,
    Instance,
}

/// One attribute of a vertex buffer layout: where it starts inside a
/// vertex, how it is read, and the shader location it feeds.
#[derive(Debug, Clone, Copy, PartialEq, Eq)]
pub struct VertexAttribute {
    pub offset: u64,
    pub format: VertexFormat,
    pub shader_location: u32,
}

/// How the pipeline reads a vertex buffer: the distance in bytes between
/// consecutive vertices, the step mode, and the attributes of one vertex.
#[derive(Debug, PartialEq, Eq)]
pub struct VertexBufferLayout {
    pub array_stride: u64,
    pub step_mode: VertexStepMode,
    pub attributes: Vec<VertexAttribute>,
}

impl VertexFormat {
    /// Size in bytes of one attribute of this format.
    pub open spec fn byte_size(self) -> nat {
        match self {
            VertexFormat::Float32x3 => 12,
        }
    }

    /// Size in bytes of one attribute of this format.
    pub fn size(&self) -> (r: u64)
        ensures
            r == self.byte_size(),
    {
        match self {
            VertexFormat::Float32x3 => 12,
        }
    }
}

/// The attributes are packed: the first starts at offset 0, each of the
/// others starts where the one before it ends, the last ends at the stride,
/// and attribute `i` feeds shader location `i`.
pub open spec fn layout_packed(attrs: Seq<VertexAttribute>, stride: nat) -> bool {
    &&& attrs.len() > 0
    &&& attrs[0].offset == 0
    &&& forall|i: int|
        #![trigger attrs[i + 1]]
        0 <= i < attrs.len() - 1 ==> attrs[i + 1].offset == attrs[i].offset
            + attrs[i].format.byte_size()
    &&& attrs[attrs.len() - 1].offset + attrs[attrs.len() - 1].format.byte_size() == stride
    &&& forall|i: int| 0 <= i < attrs.len() ==> #[trigger] attrs[i].shader_location == i
}

/// Every attribute lies inside one vertex, no two attributes overlap, and
/// no two attributes feed the same shader location.
pub open spec fn layout_sound(attrs: Seq<VertexAttribute>, stride: nat) -> bool {
    &&& forall|i: int|
        0 <= i < attrs.len() ==> #[trigger] attrs[i].offset + attrs[i].format.byte_size() <= stride
    &&& forall|i: int, j: int|
        0 <= i < j < attrs.len() ==> #[trigger] attrs[i].offset + attrs[i].format.byte_size()
            <= #[trigger] attrs[j].offset
    &&& forall|i: int, j: int|
        0 <= i < j < attrs.len() ==> #[trigger] attrs[i].shader_location
            != #[trigger] attrs[j].shader_location
}

proof fn lemma_packed_offsets_grow(attrs: Seq<VertexAttribute>, stride: nat, i: int, j: int)
    requires
        layout_packed(attrs, stride),
        0 <= i < j < attrs.len(),
    ensures
        attrs[i].offset + attrs[i].format.byte_size() <= attrs[j].offset,
    decreases j - i,
{
    assert(attrs[(j - 1) + 1].offset == attrs[j - 1].offset + attrs[j - 1].format.byte_size());
    if i < j - 1 {
        lemma_packed_offsets_grow(attrs, stride, i, j - 1);
    }
}

/// A packed layout is sound: every attribute lies inside one vertex, the
/// attributes do not overlap, and their shader locations are distinct.
pub proof fn lemma_packed_layout_is_sound(attrs: Seq<VertexAttribute>, stride: nat)
    requires
        layout_packed(attrs, stride),
    ensures
        layout_sound(attrs, stride),
{
    let n: int = attrs.len() as int;
    assert forall|i: int, j: int| 0 <= i < j < n implies #[trigger] attrs[i].offset
        + attrs[i].format.byte_size() <= #[trigger] attrs[j].offset by {
        lemma_packed_offsets_grow(attrs, stride, i, j);
    }
    assert forall|i: int| 0 <= i < n implies #[trigger] attrs[i].offset
        + attrs[i].format.byte_size() <= stride by {
        if i < n - 1 {
            lemma_packed_offsets_grow(attrs, stride, i, n - 1);
        }
    }
    assert forall|i: int, j: int| 0 <= i < j < n implies #[trigger] attrs[i].shader_location
        != #[trigger] attrs[j].shader_location by {
        assert(attrs[i].shader_location == i);
        assert(attrs[j].shader_location == j);
    }
}

/// The position attribute: three floats at offset 0, shader location 0.
pub open spec fn position_attribute() -> VertexAttribute {
    VertexAttribute { offset: 0, format: VertexFormat::Float32x3, shader_location: 0 }
}

/// The colour attribute: three floats right after the position, shader
/// location 1.
pub open spec fn color_attribute() -> VertexAttribute {
    VertexAttribute { offset: 12, format: VertexFormat::Float32x3, shader_location: 1 }
}

/// A vertex from the bit patterns of its position and colour.
pub open spec fn vertex(position: [u32; 3], color: [u32; 3]) -> MyVertex {
    MyVertex { position, color }
}

/// The triangle: top corner red, bottom left corner green, bottom right
/// corner blue.
pub open spec fn triangle_rgb_spec() -> Seq<MyVertex> {
    seq![
        vertex([ZERO_BITS, HALF_BITS, ZERO_BITS], [ONE_BITS, ZERO_BITS, ZERO_BITS]),
        vertex([MINUS_HALF_BITS, MINUS_HALF_BITS, ZERO_BITS], [ZERO_BITS, ONE_BITS, ZERO_BITS]),
        vertex([HALF_BITS, MINUS_HALF_BITS, ZERO_BITS], [ZERO_BITS, ZERO_BITS, ONE_BITS]),
    ]
}

/// Word `k` of a vertex in buffer order: the position's three floats,
/// then the colour's.
pub open spec fn vertex_word(v: MyVertex, k: int) -> u32 {
    if k < 3 {
        v.position@[k]
    } else {
        v.color@[k - 3]
    }
}

/// Component `c` of attribute `a` of a vertex: attribute 0 is the
/// position, attribute 1 the colour.
pub open spec fn attribute_component(v: MyVertex, a: int, c: int) -> u32 {
    if a == 0 {
        v.position@[c]
    } else {
        v.color@[c]
    }
}

/// The words of a vertex buffer hold the vertices one after the other,
/// each as its six words in buffer order.
pub open spec fn words_encode(words: Seq<u32>, vertices: Seq<MyVertex>) -> bool {
    &&& words.len() == WORDS_PER_VERTEX * vertices.len()
    &&& forall|i: int, k: int|
        #![trigger vertex_word(vertices[i], k)]
        0 <= i < vertices.len() && 0 <= k < 6 ==> words[6 * i + k] == vertex_word(vertices[i], k)
}

/// The attributes of the triangle's layout, as `MyVertex::desc` gives them.
pub open spec fn triangle_attributes() -> Seq<VertexAttribute> {
    seq![position_attribute(), color_attribute()]
}

/// The buffer and the layout agree: in a buffer laid out by
/// `vertex_words`, the pipeline reading component `c` of attribute `a` of
/// vertex `i` at byte `i * VERTEX_SIZE + offset + 4 * c` finds that
/// component of that vertex's position (attribute 0) or colour
/// (attribute 1).
pub proof fn lemma_buffer_matches_layout(words: Seq<u32>, vertices: Seq<MyVertex>, i: int, a: int, c: int)
    requires
        words_encode(words, vertices),
        0 <= i < vertices.len(),
        0 <= a < triangle_attributes().len(),
        0 <= c < 3,
    ensures
        ({
            let byte: int = i * VERTEX_SIZE + triangle_attributes()[a].offset + 4 * c;
            &&& byte % 4 == 0
            &&& 0 <= byte / 4 < words.len()
            &&& words[byte / 4] == attribute_component(vertices[i], a, c)
        }),
{
    let k: int = 3 * a + c;
    assert(vertex_word(vertices[i], k) == words[6 * i + k]);
    let byte: int = i * VERTEX_SIZE + triangle_attributes()[a].offset + 4 * c;
    assert(byte == 4 * (6 * i + k));
    assert(6 * i + k < 6 * vertices.len()) by (nonlinear_arith)
        requires
            0 <= i < vertices.len(),
            0 <= k < 6,
    ;
}

/// Byte `k` (counted from the lowest address) of a 32-bit word stored
/// least significant byte first when `little` holds, most significant byte
/// first otherwise.
pub open spec fn word_byte(w: u32, k: int, little: bool) -> u8 {
    let shift: u32 = if little { (8 * k) as u32 } else { (8 * (3 - k)) as u32 };
    ((w >> shift) & 0xff) as u8
}

/// The bytes hold the words one after the other, each as its four bytes in
/// the byte order that `little` chooses.
pub open spec fn word_bytes_in_order(bytes: Seq<u8>, words: Seq<u32>, little: bool) -> bool {
    &&& bytes.len() == 4 * words.len()
    &&& forall|i: int, k: int|
        #![trigger word_byte(words[i], k, little)]
        0 <= i < words.len() && 0 <= k < 4 ==> bytes[4 * i + k] == word_byte(words[i], k, little)
}

/// A vertex buffer read by the triangle's layout gives the vertices back:
/// in one byte order, for every vertex `i`, attribute `a`, component `c`
/// and byte `k`, the byte at `i * VERTEX_SIZE + offset + 4 * c + k` is byte
/// `k` of that component of the vertex's position (attribute 0) or colour
/// (attribute 1).
pub open spec fn buffer_decodes_in_order(bytes: Seq<u8>, vertices: Seq<MyVertex>, little: bool) -> bool {
    &&& bytes.len() == vertices.len() * VERTEX_SIZE
    &&& forall|i: int, a: int, c: int, k: int|
        #![trigger word_byte(attribute_component(vertices[i], a, c), k, little)]
        0 <= i < vertices.len() && 0 <= a < 2 && 0 <= c < 3 && 0 <= k < 4 ==> bytes[i
            * VERTEX_SIZE + triangle_attributes()[a].offset + 4 * c + k] == word_byte(
            attribute_component(vertices[i], a, c),
            k,
            little,
        )
}

/// The bytes of a buffer laid out by `vertex_words` agree with the layout:
/// byte `k` of component `c` of attribute `a` of vertex `i`, read at
/// `i * VERTEX_SIZE + offset + 4 * c + k`, is byte `k` of that component.
pub proof fn lemma_buffer_bytes_match_layout(
    bytes: Seq<u8>,
    words: Seq<u32>,
    vertices: Seq<MyVertex>,
    little: bool,
    i: int,
    a: int,
    c: int,
    k: int,
)
    requires
        words_encode(words, vertices),
        word_bytes_in_order(bytes, words, little),
        0 <= i < vertices.len(),
        0 <= a < triangle_attributes().len(),
        0 <= c < 3,
        0 <= k < 4,
    ensures
        bytes[i * VERTEX_SIZE + triangle_attributes()[a].offset + 4 * c + k] == word_byte(
            attribute_component(vertices[i], a, c),
            k,
            little,
        ),
{
    lemma_buffer_matches_layout(words, vertices, i, a, c);
    let byte: int = i * VERTEX_SIZE + triangle_attributes()[a].offset + 4 * c;
    let j: int = byte / 4;
    assert(byte == 4 * j);
    assert(word_byte(words[j], k, little) == bytes[4 * j + k]);
}

/// The words of every vertex buffer agree with the layout, byte by byte, in
/// the byte order the words are stored in.
pub proof fn lemma_buffer_decodes(bytes: Seq<u8>, words: Seq<u32>, vertices: Seq<MyVertex>, little: bool)
    requires
        words_encode(words, vertices),
        word_bytes_in_order(bytes, words, little),
    ensures
        buffer_decodes_in_order(bytes, vertices, little),
{
    assert(bytes.len() == vertices.len() * VERTEX_SIZE);
    assert forall|i: int, a: int, c: int, k: int|
        0 <= i < vertices.len() && 0 <= a < 2 && 0 <= c < 3 && 0 <= k < 4 implies bytes[i
        * VERTEX_SIZE + triangle_attributes()[a].offset + 4 * c + k] == #[trigger] word_byte(
        attribute_component(vertices[i], a, c),
        k,
        little,
    ) by {
        lemma_buffer_bytes_match_layout(bytes, words, vertices, little, i, a, c, k);
    }
}

impl MyVertex {
    /// The layout of the triangle's vertex buffer: one vertex every 24
    /// bytes, stepping per vertex, the position at offset 0 for shader
    /// location 0 and the colour at offset 12 for shader location 1.
    pub fn desc() -> (r: VertexBufferLayout)
        ensures
            r.array_stride == VERTEX_SIZE,
            r.step_mode == VertexStepMode::Vertex,
            r.attributes@ == triangle_attributes(),
            layout_packed(r.attributes@, r.array_stride as nat),
            layout_sound(r.attributes@, r.array_stride as nat),
    {
        let position = VertexAttribute {
            offset: 0,
            format: VertexFormat::Float32x3,
            shader_location: 0,
        };
        let color_offset: u64 = position.format.size();
        let color = VertexAttribute {
            offset: color_offset,
            format: VertexFormat::Float32x3,
            shader_location: 1,
        };
        let array_stride: u64 = color.offset + color.format.size();
        let mut attributes: Vec<VertexAttribute> = Vec::new();
        attributes.push(position);
        attributes.push(color);
        let r = VertexBufferLayout { array_stride, step_mode: VertexStepMode::Vertex, attributes };
        proof {
            assert(r.attributes@ == triangle_attributes());
            lemma_packed_layout_is_sound(r.attributes@, r.array_stride as nat);
        }
        r
    }

    /// The three vertices of the triangle: (0, 0.5, 0) red, (-0.5, -0.5, 0)
    /// green and (0.5, -0.5, 0) blue.
    pub fn triangle_rgb() -> (r: Vec<MyVertex>)
        ensures
            r@ == triangle_rgb_spec(),
            r@.len() == triangle_draw().vertex_end - triangle_draw().vertex_start,
    {
        let mut r: Vec<MyVertex> = Vec::new();
        r.push(
            MyVertex {
                position: [ZERO_BITS, HALF_BITS, ZERO_BITS],
                color: [ONE_BITS, ZERO_BITS, ZERO_BITS],
            },
        );
        r.push(
            MyVertex {
                position: [MINUS_HALF_BITS, MINUS_HALF_BITS, ZERO_BITS],
                color: [ZERO_BITS, ONE_BITS, ZERO_BITS],
            },
        );
        r.push(
            MyVertex {
                position: [HALF_BITS, MINUS_HALF_BITS, ZERO_BITS],
                color: [ZERO_BITS, ZERO_BITS, ONE_BITS],
            },
        );
        assert(r@ == triangle_rgb_spec());
        r
    }
}

/// Lays the vertices out as 32-bit words in buffer order: for each vertex
/// its position, then its colour.
pub fn vertex_words(vertices: &Vec<MyVertex>) -> (words: Vec<u32>)
    requires
        vertices@.len() * WORDS_PER_VERTEX <= usize::MAX,
    ensures
        words_encode(words@, vertices@),
{
    let mut words: Vec<u32> = Vec::new();
    let mut i: usize = 0;
    while i < vertices.len()
        invariant
            0 <= i <= vertices@.len(),
            vertices@.len() * WORDS_PER_VERTEX <= usize::MAX,
            words@.len() == 6 * i,
            forall|j: int, k: int|
                #![trigger vertex_word(vertices@[j], k)]
                0 <= j < i && 0 <= k < 6 ==> words@[6 * j + k] == vertex_word(vertices@[j], k),
        decreases vertices@.len() - i,
    {
        let v = vertices[i];
        words.push(v.position[0]);
        words.push(v.position[1]);
        words.push(v.position[2]);
        words.push(v.color[0]);
        words.push(v.color[1]);
        words.push(v.color[2]);
        proof {
            assert forall|j: int, k: int|
                #![trigger vertex_word(vertices@[j], k)]
                0 <= j < i + 1 && 0 <= k < 6 implies words@[6 * j + k] == vertex_word(
                vertices@[j],
                k,
            ) by {
                if j == i {
                    assert(vertices@[j] == v);
                }
            }
        }
        i = i + 1;
    }
    words
}

/// The machine stores a 32-bit word least significant byte first (in
/// vstd's abstraction of the executing hardware's byte order).
pub open spec fn native_little() -> bool {
    endianness() == Endian::Little
}

/// Calls `bytemuck::cast_slice::<u32, u8>`, which views the memory of the
/// words as bytes: four bytes for each word, the words one after the other,
/// each stored in the byte order of the machine the program runs on (the
/// same order for every call), which is least significant byte first or
/// most significant byte first.
#[verifier::external_body]
fn words_as_bytes(words: &[u32]) -> (bytes: Vec<u8>)
    ensures
        word_bytes_in_order(bytes@, words@, true) || word_bytes_in_order(bytes@, words@, false),
        word_bytes_in_order(bytes@, words@, native_little()),
{
    bytemuck::cast_slice::<u32, u8>(words).to_vec()
}

/// The contents of the vertex buffer for the given vertices: their words
/// in buffer order (see `vertex_words`), each as its four bytes in the
/// machine's byte order, one vertex every `VERTEX_SIZE` bytes. Read by the
/// layout of `MyVertex::desc` in the machine's byte order, the buffer gives
/// the vertices back.
pub fn vertex_bytes(vertices: &Vec<MyVertex>) -> (bytes: Vec<u8>)
    requires
        vertices@.len() * VERTEX_SIZE <= usize::MAX,
    ensures
        bytes@.len() == vertices@.len() * VERTEX_SIZE,
        exists|words: Seq<u32>|
            words_encode(words, vertices@) && (word_bytes_in_order(bytes@, words, true)
                || word_bytes_in_order(bytes@, words, false)),
        buffer_decodes_in_order(bytes@, vertices@, true) || buffer_decodes_in_order(
            bytes@,
            vertices@,
            false,
        ),
        exists|words: Seq<u32>|
            words_encode(words, vertices@) && word_bytes_in_order(bytes@, words, native_little()),
        buffer_decodes_in_order(bytes@, vertices@, native_little()),
{
    let words = vertex_words(vertices);
    let bytes = words_as_bytes(words.as_slice());
    proof {
        assert(words_encode(words@, vertices@));
        lemma_buffer_decodes(bytes@, words@, vertices@, native_little());
    }
    bytes
}

proof fn lemma_split_index(b: int, n: nat)
    requires
        0 <= b < n * VERTEX_SIZE,
    ensures
        ({
            let i = b / 24;
            let r = b % 24;
            let a = r / 12;
            let c = (r % 12) / 4;
            let k = r % 4;
            &&& 0 <= i < n
            &&& 0 <= a < 2
            &&& 0 <= c < 3
            &&& 0 <= k < 4
            &&& b == i * VERTEX_SIZE + triangle_attributes()[a].offset + 4 * c + k
        }),
{
    let i = b / 24;
    let r = b % 24;
    assert(b == 24 * i + r && 0 <= r < 24);
    assert(i < n) by (nonlinear_arith)
        requires
            b == 24 * i + r,
            0 <= r,
            b < n * 24,
    ;
    let a = r / 12;
    let c = (r % 12) / 4;
    let k = r % 4;
    assert(r == 12 * a + 4 * c + k);
    assert(triangle_attributes()[a].offset == 12 * a);
}

/// A vertex buffer is determined by its vertices and its byte order: two
/// buffers that the layout reads back as the same vertices in the same byte
/// order are equal.
pub proof fn lemma_vertex_buffer_determined(
    b1: Seq<u8>,
    b2: Seq<u8>,
    vertices: Seq<MyVertex>,
    little: bool,
)
    requires
        buffer_decodes_in_order(b1, vertices, little),
        buffer_decodes_in_order(b2, vertices, little),
    ensures
        b1 == b2,
{
    assert forall|b: int| 0 <= b < b1.len() implies b1[b] == b2[b] by {
        lemma_split_index(b, vertices.len());
        let i = b / 24;
        let r = b % 24;
        let a = r / 12;
        let c = (r % 12) / 4;
        let k = r % 4;
        assert(word_byte(attribute_component(vertices[i], a, c), k, little) == b1[b]);
    }
    assert(b1 =~= b2);
}

/// Vertex buffers compose: the buffer of two vertex lists one after the
/// other is the buffer of the first followed by the buffer of the second,
/// in the same byte order.
pub proof fn lemma_vertex_buffer_concat(
    b: Seq<u8>,
    b1: Seq<u8>,
    b2: Seq<u8>,
    v1: Seq<MyVertex>,
    v2: Seq<MyVertex>,
    little: bool,
)
    requires
        buffer_decodes_in_order(b, v1 + v2, little),
        buffer_decodes_in_order(b1, v1, little),
        buffer_decodes_in_order(b2, v2, little),
    ensures
        b == b1 + b2,
{
    let v = v1 + v2;
    let n1 = v1.len() * VERTEX_SIZE;
    assert(b.len() == n1 + v2.len() * VERTEX_SIZE) by (nonlinear_arith)
        requires
            b.len() == v.len() * VERTEX_SIZE,
            v.len() == v1.len() + v2.len(),
            n1 == v1.len() * VERTEX_SIZE,
    ;
    assert forall|x: int| 0 <= x < b.len() implies b[x] == (b1 + b2)[x] by {
        if x < n1 {
            lemma_split_index(x, v1.len());
            let i = x / 24;
            let r = x % 24;
            let a = r / 12;
            let c = (r % 12) / 4;
            let k = r % 4;
            assert(v[i] == v1[i]);
            assert(word_byte(attribute_component(v[i], a, c), k, little) == b[x]);
            assert(word_byte(attribute_component(v1[i], a, c), k, little) == b1[x]);
        } else {
            let y = x - n1;
            lemma_split_index(y, v2.len());
            let i = y / 24;
            let r = y % 24;
            let a = r / 12;
            let c = (r % 12) / 4;
            let k = r % 4;
            assert(v[i + v1.len()] == v2[i]);
            assert(x == (i + v1.len()) * VERTEX_SIZE + triangle_attributes()[a].offset + 4 * c + k)
                by (nonlinear_arith)
                requires
                    y == i * VERTEX_SIZE + triangle_attributes()[a].offset + 4 * c + k,
                    x == y + n1,
                    n1 == v1.len() * VERTEX_SIZE,
            ;
            assert(word_byte(attribute_component(v[i + v1.len()], a, c), k, little) == b[x]);
            assert(word_byte(attribute_component(v2[i], a, c), k, little) == b2[y]);
        }
    }
    assert(b =~= b1 + b2);
}

/// How a GPU buffer is used.
#[derive(Debug, Clone, Copy, PartialEq, Eq)]
pub enum BufferUsage {
    /// As a source of vertices.
    Vertex,
}

/// What the lesson sets up the first time it is resumed: a window with
/// this title and the size above, the render pipeline it draws with, the
/// layout of its one vertex buffer, and that buffer's contents and usage.
#[derive(Debug, PartialEq, Eq)]
pub struct Setup {
    pub title: &'static str,
    pub width: u32,
    pub height: u32,
    pub pipeline: PipelinePlan,
    pub vertex_layout: VertexBufferLayout,
    pub vertex_buffer: Vec<u8>,
    pub vertex_buffer_usage: BufferUsage,
}

/// The lesson's setup: the window titled "My Exam" at the lesson's size; a
/// triangle pipeline with the shader entry points "vertex_main" and
/// "fragment_main" reading one vertex buffer with the layout of
/// `MyVertex::desc`; and a vertex buffer holding `vertex_bytes` of
/// `MyVertex::triangle_rgb`, used as a source of vertices.
pub fn setup() -> (r: Setup)
    ensures
        r.title@ == "My Exam"@,
        r.width == WINDOW_WIDTH,
        r.height == WINDOW_HEIGHT,
        is_triangle_pipeline(r.pipeline, "vertex_main"@, "fragment_main"@),
        r.vertex_layout.array_stride == VERTEX_SIZE,
        r.vertex_layout.step_mode == VertexStepMode::Vertex,
        r.vertex_layout.attributes@ == triangle_attributes(),
        r.vertex_buffer@.len() == triangle_rgb_spec().len() * VERTEX_SIZE,
        exists|words: Seq<u32>|
            words_encode(words, triangle_rgb_spec()) && (word_bytes_in_order(
                r.vertex_buffer@,
                words,
                true,
            ) || word_bytes_in_order(r.vertex_buffer@, words, false)),
        buffer_decodes_in_order(r.vertex_buffer@, triangle_rgb_spec(), true)
            || buffer_decodes_in_order(r.vertex_buffer@, triangle_rgb_spec(), false),
        buffer_decodes_in_order(r.vertex_buffer@, triangle_rgb_spec(), native_little()),
        r.vertex_buffer_usage == BufferUsage::Vertex,
{
    let triangle = MyVertex::triangle_rgb();
    Setup {
        title: "My Exam",
        width: WINDOW_WIDTH,
        height: WINDOW_HEIGHT,
        pipeline: triangle_pipeline("vertex_main", "fragment_main"),
        vertex_layout: MyVertex::desc(),
        vertex_buffer: vertex_bytes(&triangle),
        vertex_buffer_usage: BufferUsage::Vertex,
    }
}

impl MyApp {
    /// The window and the GPU state are created together.
    pub open spec fn wf(self) -> bool {
        self.has_window == self.core is Some
    }

    /// The state after a resize to `width` by `height`.
    pub open spec fn after_resize(self, width: u32, height: u32) -> MyApp {
        match self.core {
            Some(core) => MyApp {
                has_window: self.has_window,
                core: Some(Core { surface_cfg: with_size(core.surface_cfg, width, height) }),
            },
            None => self,
        }
    }

    /// The state after the application is resumed with a surface that has
    /// the given capabilities.
    pub open spec fn after_resumed(self, format_is_srgb: Seq<bool>) -> MyApp {
        if self.has_window {
            self
        } else {
            MyApp {
                has_window: true,
                core: Some(
                    Core {
                        surface_cfg: planned_config(format_is_srgb, WINDOW_WIDTH, WINDOW_HEIGHT),
                    },
                ),
            }
        }
    }

    /// What a redraw does in this state.
    pub open spec fn render_step(self) -> RenderStep {
        if self.has_window {
            RenderStep::Frame(Some(triangle_draw()))
        } else {
            RenderStep::Skip
        }
    }

    /// The state and the command after a frame failed with `err` while the
    /// window's inner size is `width` by `height`: a lost or outdated
    /// surface is resized to the window's size, as a resize event would;
    /// any other failure changes nothing.
    pub open spec fn after_frame_error(self, err: FrameError, width: u32, height: u32) -> (MyApp, Command) {
        if err is Lost || err is Outdated {
            self.after_event(AppEvent::Resized { width, height })
        } else {
            (self, Command::Nothing)
        }
    }

    /// The state after a window event, and the command for the event loop.
    pub open spec fn after_event(self, event: AppEvent) -> (MyApp, Command) {
        match event {
            AppEvent::Resized { width, height } => (
                self.after_resize(width, height),
                if self.core is Some { Command::Configure } else { Command::Nothing },
            ),
            AppEvent::RedrawRequested => (self, Command::Render(self.render_step())),
            AppEvent::CloseRequested => (self, Command::Exit),
            AppEvent::Other => (self, Command::Nothing),
        }
    }

    /// A lesson with no window and no GPU state yet.
    pub fn init() -> (r: MyApp)
        ensures
            r == (MyApp { has_window: false, core: None }),
            r.wf(),
    {
        MyApp { has_window: false, core: None }
    }

    /// Records a new surface size. When the GPU is set up, the
    /// configuration takes the new size and the result asks for the surface
    /// to be configured anew; before that nothing changes.
    pub fn resize(&mut self, width: u32, height: u32) -> (reconfigure: bool)
        ensures
            *final(self) == old(self).after_resize(width, height),
            reconfigure == old(self).core is Some,
            old(self).wf() ==> final(self).wf(),
    {
        match self.core {
            Some(core) => {
                let mut core = core;
                set_size(&mut core.surface_cfg, width, height);
                self.core = Some(core);
                true
            },
            None => false,
        }
    }

    /// Decides what a redraw does: nothing before the window exists, else
    /// a frame that draws the triangle from the vertex buffer.
    pub fn render(&self) -> (step: RenderStep)
        ensures
            step == self.render_step(),
    {
        if !self.has_window {
            return RenderStep::Skip;
        }
        RenderStep::Frame(
            Some(
                DrawCall {
                    vertex_start: 0,
                    vertex_end: 3,
                    instance_start: 0,
                    instance_end: 1,
                    vertex_buffer_slot: Some(0),
                },
            ),
        )
    }

    /// Whether resuming must create the window and set up the GPU.
    pub fn needs_window(&self) -> (r: bool)
        ensures
            r == !self.has_window,
    {
        !self.has_window
    }

    /// Finishes resuming: the first time, records the window and the GPU
    /// state with the surface configuration planned for the window's size;
    /// afterwards nothing changes. The result tells whether the state was
    /// set up by this call.
    pub fn resumed(&mut self, caps: &SurfaceCaps) -> (created: bool)
        requires
            !old(self).has_window ==> caps_usable(caps),
        ensures
            *final(self) == old(self).after_resumed(caps.format_is_srgb@),
            created == !old(self).has_window,
            old(self).wf() ==> final(self).wf(),
    {
        if self.has_window {
            return false;
        }
        let surface_cfg = plan_surface_config(caps, WINDOW_WIDTH, WINDOW_HEIGHT);
        self.has_window = true;
        self.core = Some(Core { surface_cfg });
        true
    }

    /// Handles a frame that failed with `err`, given the window's current
    /// inner size: a lost or outdated surface is resized to that size; any
    /// other failure is ignored.
    pub fn frame_failed(&mut self, err: FrameError, width: u32, height: u32) -> (cmd: Command)
        ensures
            (*final(self), cmd) == old(self).after_frame_error(err, width, height),
            old(self).wf() ==> final(self).wf(),
    {
        if needs_reconfigure(&err) {
            if self.resize(width, height) {
                Command::Configure
            } else {
                Command::Nothing
            }
        } else {
            Command::Nothing
        }
    }

    /// Handles a window event: a resize is recorded, a redraw is decided by
    /// `render`, a close request ends the event loop.
    pub fn window_event(&mut self, event: AppEvent) -> (cmd: Command)
        ensures
            (*final(self), cmd) == old(self).after_event(event),
            old(self).wf() ==> final(self).wf(),
    {
        match event {
            AppEvent::Resized { width, height } => {
                if self.resize(width, height) {
                    Command::Configure
                } else {
                    Command::Nothing
                }
            },
            AppEvent::RedrawRequested => Command::Render(self.render()),
            AppEvent::CloseRequested => Command::Exit,
            AppEvent::Other => Command::Nothing,
        }
    }
}

/// Every operation keeps the window and the GPU state together.
pub proof fn lemma_operations_keep_wf(
    app: MyApp,
    width: u32,
    height: u32,
    format_is_srgb: Seq<bool>,
    event: AppEvent,
)
    requires
        app.wf(),
    ensures
        app.after_resize(width, height).wf(),
        app.after_resumed(format_is_srgb).wf(),
        app.after_event(event).0.wf(),
{
}

/// Resuming a second time changes nothing: the window and the GPU state
/// are set up once.
pub proof fn lemma_resumed_once(app: MyApp, first: Seq<bool>, second: Seq<bool>)
    ensures
        app.after_resumed(first).after_resumed(second) == app.after_resumed(first),
{
}

/// Before the window exists, a redraw does nothing and a resize changes
/// nothing.
pub proof fn lemma_idle_before_window(app: MyApp, width: u32, height: u32)
    requires
        app.wf(),
        !app.has_window,
    ensures
        app.render_step() == RenderStep::Skip,
        app.after_resize(width, height) == app,
        app.after_event(AppEvent::Resized { width, height }) == (app, Command::Nothing),
{
}

/// Of two resizes in a row the last one decides the surface size.
pub proof fn lemma_last_resize_wins(app: MyApp, w1: u32, h1: u32, w2: u32, h2: u32)
    ensures
        app.after_resize(w1, h1).after_resize(w2, h2) == app.after_resize(w2, h2),
{
}

/// Once resumed, a resize sets the surface to exactly the requested size,
/// keeps the format, present mode, alpha mode and latency chosen when the
/// surface was set up, and the next redraw renders a frame.
pub proof fn lemma_resize_after_resume(app: MyApp, format_is_srgb: Seq<bool>, width: u32, height: u32)
    requires
        app.wf(),
    ensures
        ({
            let resumed = app.after_resumed(format_is_srgb);
            let resized = resumed.after_resize(width, height);
            &&& resized.core matches Some(core) && core.surface_cfg == with_size(
                resumed.core.unwrap().surface_cfg,
                width,
                height,
            )
            &&& resized.render_step() == RenderStep::Frame(Some(triangle_draw()))
        }),
{
}


/// A lost or outdated surface is configured anew at the window's current
/// size; any other failed frame changes nothing.
pub proof fn lemma_frame_error_recovery(app: MyApp, err: FrameError, width: u32, height: u32)
    requires
        app.wf(),
        app.has_window,
    ensures
        (err is Lost || err is Outdated) ==> {
            let (next, cmd) = app.after_frame_error(err, width, height);
            &&& cmd == Command::Configure
            &&& next.core.unwrap().surface_cfg == with_size(app.core.unwrap().surface_cfg, width, height)
        },
        !(err is Lost || err is Outdated) ==> app.after_frame_error(err, width, height) == (
            app,
            Command::Nothing,
        ),
{
}


/// Before the window and the GPU state exist, a failed frame changes
/// nothing and asks for nothing.
pub proof fn lemma_frame_error_before_window(app: MyApp, err: FrameError, width: u32, height: u32)
    requires
        app.wf(),
        !app.has_window,
    ensures
        app.after_frame_error(err, width, height) == (app, Command::Nothing),
{
}

/// Resuming without a window creates the window and the GPU state and plans
/// the surface: textures used as render attachments, 800 by 400
/// pixels, the first sRGB format of the list when it has one and the first
/// format otherwise, the first present mode and alpha mode, no extra view
/// formats, and a desired frame latency of two frames.
pub proof fn lemma_resume_plans_surface(app: MyApp, format_is_srgb: Seq<bool>)
    requires
        !app.has_window,
        0 < format_is_srgb.len() <= usize::MAX,
    ensures
        ({
            let next = app.after_resumed(format_is_srgb);
            &&& next.has_window
            &&& next.core is Some
            &&& ({
                let c = next.core.unwrap().surface_cfg;
                &&& c.usage == TextureUsage::RenderAttachment
                &&& c.width == 800
                &&& c.height == 400
                &&& c.format_index < format_is_srgb.len()
                &&& forall|j: int| 0 <= j < c.format_index ==> !format_is_srgb[j]
                &&& (exists|j: int| 0 <= j < format_is_srgb.len() && format_is_srgb[j])
                    ==> format_is_srgb[c.format_index as int]
                &&& !(exists|j: int| 0 <= j < format_is_srgb.len() && format_is_srgb[j])
                    ==> c.format_index == 0
                &&& c.present_mode_index == 0
                &&& c.alpha_mode_index == 0
                &&& c.view_format_count == 0
                &&& c.desired_maximum_frame_latency == 2
            })
        }),
{
    lemma_preferred_format(format_is_srgb);
}

/// What each window event does: a resize with the GPU state set up records
/// exactly the new size, keeps the format, modes and latency, and always
/// asks for the surface to be configured; without the GPU state it changes
/// nothing. A redraw changes nothing; before the window exists it does
/// nothing, afterwards it renders a frame drawing vertices 0 to 3 once,
/// with the vertex buffer bound to slot 0. Only a close request ends the event loop, and
/// neither it nor any other event changes the state.
pub proof fn lemma_window_events(app: MyApp, event: AppEvent, width: u32, height: u32)
    ensures
        app.core is Some ==> {
            let (next, cmd) = app.after_event(AppEvent::Resized { width, height });
            &&& cmd == Command::Configure
            &&& next.has_window == app.has_window
            &&& next.core is Some
            &&& next.core.unwrap().surface_cfg.width == width
            &&& next.core.unwrap().surface_cfg.height == height
            &&& next.core.unwrap().surface_cfg.usage == app.core.unwrap().surface_cfg.usage
            &&& next.core.unwrap().surface_cfg.format_index == app.core.unwrap().surface_cfg.format_index
            &&& next.core.unwrap().surface_cfg.present_mode_index
                == app.core.unwrap().surface_cfg.present_mode_index
            &&& next.core.unwrap().surface_cfg.alpha_mode_index
                == app.core.unwrap().surface_cfg.alpha_mode_index
            &&& next.core.unwrap().surface_cfg.view_format_count
                == app.core.unwrap().surface_cfg.view_format_count
            &&& next.core.unwrap().surface_cfg.desired_maximum_frame_latency
                == app.core.unwrap().surface_cfg.desired_maximum_frame_latency
        },
        app.core is None ==> app.after_event(AppEvent::Resized { width, height }) == (
            app,
            Command::Nothing,
        ),
        app.after_event(AppEvent::RedrawRequested).0 == app,
        !app.has_window ==> app.after_event(AppEvent::RedrawRequested).1 == Command::Render(
            RenderStep::Skip,
        ),
        app.has_window ==> app.after_event(AppEvent::RedrawRequested).1 == Command::Render(
            RenderStep::Frame(
                Some(
                    DrawCall {
                        vertex_start: 0,
                        vertex_end: 3,
                        instance_start: 0,
                        instance_end: 1,
                        vertex_buffer_slot: Some(0),
                    },
                ),
            ),
        ),
        (app.after_event(event).1 == Command::Exit) == (event == AppEvent::CloseRequested),
        app.after_event(AppEvent::CloseRequested).0 == app,
        app.after_event(AppEvent::Other) == (app, Command::Nothing),
{
}

} // verus!
