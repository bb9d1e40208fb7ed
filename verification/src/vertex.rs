//! The vertex buffer: its attribute layout, the calls that set it up, and the
//! calls that draw it.

use vstd::prelude::*;
use crate::gl_call::GlCall;

verus! {

/// Type tag of signed 8-bit components.
pub const BYTE: u32 = 0x1400;

/// Type tag of unsigned 8-bit components.
pub const UNSIGNED_BYTE: u32 = 0x1401;

/// Type tag of signed 16-bit components.
pub const SHORT: u32 = 0x1402;

/// Type tag of unsigned 16-bit components.
pub const UNSIGNED_SHORT: u32 = 0x1403;

/// Type tag of signed 32-bit components.
pub const INT: u32 = 0x1404;

/// Type tag of unsigned 32-bit components.
pub const UNSIGNED_INT: u32 = 0x1405;

/// Type tag of 32-bit floating-point components.
pub const FLOAT: u32 = 0x1406;

/// Type tag of 64-bit floating-point components.
pub const DOUBLE: u32 = 0x140A;

/// Type tag of 16-bit floating-point components.
pub const HALF_FLOAT: u32 = 0x140B;

/// Type tag of 16.16 fixed-point components.
pub const FIXED: u32 = 0x140C;

/// Bytes counted for one component of a type whose tag is none of those
/// above, such as a packed type.
pub const OTHER_COMPONENT_BYTES: usize = 4;

/// Bytes taken by one component of the type that `kind` tags.
///
/// The ten tags above have the size of their type: 1, 2, 4 or 8 bytes. A
/// component of any other tag counts as `OTHER_COMPONENT_BYTES`, so that no
/// tag is turned away here; whether it is one that the graphics API takes is
/// left to the driver.
pub open spec fn component_bytes(kind: u32) -> int {
    if kind == BYTE || kind == UNSIGNED_BYTE {
        1
    } else if kind == SHORT || kind == UNSIGNED_SHORT || kind == HALF_FLOAT {
        2
    } else if kind == INT || kind == UNSIGNED_INT || kind == FLOAT || kind == FIXED {
        4
    } else if kind == DOUBLE {
        8
    } else {
        OTHER_COMPONENT_BYTES as int
    }
}

/// Bytes taken by attribute `i` in one vertex: its component count times the
/// size of one component of its type.
pub open spec fn attribute_bytes(types: Seq<u32>, sizes: Seq<i32>, i: int) -> int {
    sizes[i] * component_bytes(types[i])
}

/// Byte offset of attribute `i` inside one vertex: the bytes taken by the
/// attributes before it.
pub open spec fn attribute_offset(types: Seq<u32>, sizes: Seq<i32>, i: int) -> int
    decreases i,
{
    if i <= 0 {
        0
    } else {
        attribute_offset(types, sizes, i - 1) + attribute_bytes(types, sizes, i - 1)
    }
}

/// Number of components that precede attribute `i`: the sum of the first `i`
/// component counts.
pub open spec fn components_before(sizes: Seq<i32>, i: int) -> int
    decreases i,
{
    if i <= 0 {
        0
    } else {
        components_before(sizes, i - 1) + sizes[i - 1]
    }
}

/// Whether a layout can be set up at all: one component count per type tag,
/// every slot index representable as `u32`, every byte offset as `usize`.
/// Neither the tags nor the counts are looked at beyond that.
pub open spec fn layout_fits(types: Seq<u32>, sizes: Seq<i32>) -> bool {
    &&& types.len() == sizes.len()
    &&& types.len() <= u32::MAX + 1
    &&& forall|i: int|
        0 <= i < types.len() ==> 0 <= #[trigger] attribute_offset(types, sizes, i) <= usize::MAX
}

/// Bytes from one vertex to the next where the attributes follow each other
/// without a gap and nothing else lies between two vertices.
pub open spec fn packed_stride_bytes(types: Seq<u32>, sizes: Seq<i32>) -> int {
    attribute_offset(types, sizes, types.len() as int)
}

/// The stride of tightly packed vertices, where the layout has one component
/// count per type tag and the stride can be expressed.
pub open spec fn packed_stride_of(types: Seq<u32>, sizes: Seq<i32>) -> Option<i32> {
    let bytes = packed_stride_bytes(types, sizes);
    if types.len() == sizes.len() && 0 <= bytes <= i32::MAX {
        Some(bytes as i32)
    } else {
        None
    }
}

/// The byte length of `vertex_num` tightly packed vertices, where the stride
/// and the length can be expressed.
pub open spec fn packed_size_of(types: Seq<u32>, sizes: Seq<i32>, vertex_num: i32) -> Option<
    isize,
> {
    match packed_stride_of(types, sizes) {
        Some(stride) => {
            let bytes = stride * vertex_num;
            if 0 <= bytes <= isize::MAX {
                Some(bytes as isize)
            } else {
                None
            }
        },
        None => None,
    }
}

/// The call that enables attribute slot `i`.
pub open spec fn enable_call(i: int) -> GlCall {
    GlCall::EnableVertexAttribArray { index: i as u32 }
}

/// The call that describes attribute slot `i` of a layout.
pub open spec fn pointer_call(types: Seq<u32>, sizes: Seq<i32>, stride: i32, i: int) -> GlCall {
    GlCall::VertexAttribPointer {
        index: i as u32,
        size: sizes[i],
        kind: types[i],
        normalized: false,
        stride,
        offset: attribute_offset(types, sizes, i) as usize,
    }
}

/// The calls that configure every attribute slot: for slot 0, 1, 2, ... in
/// turn, first the enabling call, then the describing call.
pub open spec fn attribute_calls(types: Seq<u32>, sizes: Seq<i32>, stride: i32) -> Seq<GlCall> {
    Seq::new(
        2 * types.len(),
        |k: int|
            if k % 2 == 0 {
                enable_call(k / 2)
            } else {
                pointer_call(types, sizes, stride, k / 2)
            },
    )
}

/// Everything that has to be issued, in order, to set up a vertex buffer:
/// bind both objects, upload the data, configure the attributes, unbind.
pub open spec fn setup_calls(
    vao: u32,
    vbo: u32,
    size: isize,
    usage: u32,
    types: Seq<u32>,
    sizes: Seq<i32>,
    stride: i32,
) -> Seq<GlCall> {
    seq![
        GlCall::BindVertexArray { array: vao },
        GlCall::BindArrayBuffer { buffer: vbo },
        GlCall::ArrayBufferData { byte_len: size, usage },
    ] + attribute_calls(types, sizes, stride) + seq![
        GlCall::BindArrayBuffer { buffer: 0 },
        GlCall::BindVertexArray { array: 0 },
    ]
}

/// The calls that draw `vertex_num` vertices of the vertex array `vao`.
pub open spec fn draw_calls(vao: u32, vertex_num: i32) -> Seq<GlCall> {
    seq![
        GlCall::BindVertexArray { array: vao },
        GlCall::DrawTriangles { first: 0, count: vertex_num },
        GlCall::BindVertexArray { array: 0 },
    ]
}

/// The calls that delete the buffer `vbo` and the vertex array `vao`.
pub open spec fn release_calls(vao: u32, vbo: u32) -> Seq<GlCall> {
    seq![GlCall::DeleteBuffer { buffer: vbo }, GlCall::DeleteVertexArray { array: vao }]
}

/// The first attribute starts at the beginning of the vertex.
pub proof fn lemma_first_attribute_at_zero(types: Seq<u32>, sizes: Seq<i32>)
    ensures
        attribute_offset(types, sizes, 0) == 0,
{
}

/// Offsets accumulate: each attribute starts where the one before it ends,
/// that is, its component count times the size of its own component type
/// further on.
pub proof fn lemma_offsets_accumulate(types: Seq<u32>, sizes: Seq<i32>, i: int)
    requires
        0 <= i,
    ensures
        attribute_offset(types, sizes, i + 1) == attribute_offset(types, sizes, i) + sizes[i]
            * component_bytes(types[i]),
{
}

/// An attribute takes at most 8 bytes for each of its components.
pub proof fn lemma_attribute_bytes_bounded(types: Seq<u32>, sizes: Seq<i32>, i: int)
    ensures
        -0x4_0000_0000 <= attribute_bytes(types, sizes, i) <= 0x4_0000_0000,
        sizes[i] >= 0 ==> attribute_bytes(types, sizes, i) >= 0,
{
    let count = sizes[i];
    let bytes = component_bytes(types[i]);
    assert(-0x4_0000_0000 <= count * bytes <= 0x4_0000_0000 && (count >= 0 ==> count * bytes >= 0))
        by (nonlinear_arith)
        requires
            -0x8000_0000 <= count <= 0x7fff_ffff,
            0 <= bytes <= 8,
    ;
}

/// Where no component count is negative, offsets never step back.
pub proof fn lemma_offsets_ascend(types: Seq<u32>, sizes: Seq<i32>, i: int, j: int)
    requires
        forall|k: int| 0 <= k < sizes.len() ==> sizes[k] >= 0,
        0 <= i <= j <= sizes.len(),
    ensures
        attribute_offset(types, sizes, i) <= attribute_offset(types, sizes, j),
    decreases j - i,
{
    if i < j {
        lemma_offsets_ascend(types, sizes, i, j - 1);
        lemma_attribute_bytes_bounded(types, sizes, j - 1);
    }
}

/// Where no component count is negative, every attribute of a tightly packed
/// layout lies inside its vertex.
pub proof fn lemma_packed_attributes_fit(types: Seq<u32>, sizes: Seq<i32>, i: int)
    requires
        types.len() == sizes.len(),
        forall|k: int| 0 <= k < sizes.len() ==> sizes[k] >= 0,
        0 <= i < sizes.len(),
    ensures
        0 <= attribute_offset(types, sizes, i),
        attribute_offset(types, sizes, i) + attribute_bytes(types, sizes, i)
            <= packed_stride_bytes(types, sizes),
{
    lemma_offsets_ascend(types, sizes, 0, i);
    lemma_offsets_ascend(types, sizes, i + 1, sizes.len() as int);
}

/// Where every component count lies between 0 and 4, attribute `i` starts
/// within the first `32 * i` bytes of the vertex.
pub proof fn lemma_small_counts_bound_offsets(types: Seq<u32>, sizes: Seq<i32>, i: int)
    requires
        0 <= i <= sizes.len(),
        forall|k: int| 0 <= k < sizes.len() ==> 0 <= #[trigger] sizes[k] <= 4,
    ensures
        0 <= attribute_offset(types, sizes, i) <= 32 * i,
    decreases i,
{
    if i > 0 {
        lemma_small_counts_bound_offsets(types, sizes, i - 1);
        let count = sizes[i - 1];
        let bytes = component_bytes(types[i - 1]);
        assert(0 <= count * bytes <= 32) by (nonlinear_arith)
            requires
                0 <= count <= 4,
                0 <= bytes <= 8,
        ;
    }
}

/// A layout of up to 2^26 attributes of 0 to 4 components each, whatever
/// their type tags, can be set up.
pub proof fn lemma_small_counts_fit(types: Seq<u32>, sizes: Seq<i32>)
    requires
        types.len() == sizes.len(),
        types.len() <= 0x400_0000,
        forall|k: int| 0 <= k < sizes.len() ==> 0 <= #[trigger] sizes[k] <= 4,
    ensures
        layout_fits(types, sizes),
{
    assert forall|i: int| 0 <= i < types.len() implies 0 <= #[trigger] attribute_offset(
        types,
        sizes,
        i,
    ) <= usize::MAX by {
        lemma_small_counts_bound_offsets(types, sizes, i);
    }
}

/// Where every attribute holds 32-bit floats, an attribute starts four bytes
/// further on for each component before it.
pub proof fn lemma_float_offsets(types: Seq<u32>, sizes: Seq<i32>, i: int)
    requires
        0 <= i <= types.len(),
        forall|k: int| 0 <= k < types.len() ==> types[k] == FLOAT,
    ensures
        attribute_offset(types, sizes, i) == 4 * components_before(sizes, i),
    decreases i,
{
    if i > 0 {
        lemma_float_offsets(types, sizes, i - 1);
        assert(component_bytes(types[i - 1]) == 4);
    }
}

/// Drawing issues one draw call, and that call covers the vertices from
/// index 0 up to, and without, `vertex_num` as a triangle list.
pub proof fn lemma_draw_is_one_triangle_list(vao: u32, vertex_num: i32)
    ensures
        forall|k: int|
            0 <= k < draw_calls(vao, vertex_num).len() ==> (
            (#[trigger] draw_calls(vao, vertex_num)[k]) is DrawTriangles <==> k == 1),
        draw_calls(vao, vertex_num)[1] == (GlCall::DrawTriangles { first: 0, count: vertex_num }),
{
}

/// Bytes taken by one component of the type that `kind` tags: the size of
/// the type for the ten tags named in this module, `OTHER_COMPONENT_BYTES`
/// for any other.
pub fn component_size(kind: u32) -> (bytes: usize)
    ensures
        bytes == component_bytes(kind),
{
    if kind == BYTE || kind == UNSIGNED_BYTE {
        1
    } else if kind == SHORT || kind == UNSIGNED_SHORT || kind == HALF_FLOAT {
        2
    } else if kind == INT || kind == UNSIGNED_INT || kind == FLOAT || kind == FIXED {
        4
    } else if kind == DOUBLE {
        8
    } else {
        OTHER_COMPONENT_BYTES
    }
}

/// Walks a layout once: the bytes that all its attributes take in one
/// vertex, and whether every attribute's offset can be expressed as `usize`.
fn measure_layout(attribute_type_vec: &Vec<u32>, attribute_size_vec: &Vec<i32>) -> (measured: (
    i128,
    bool,
))
    requires
        attribute_type_vec@.len() == attribute_size_vec@.len(),
    ensures
        measured.0 == packed_stride_bytes(attribute_type_vec@, attribute_size_vec@),
        measured.1 == (forall|i: int|
            0 <= i < attribute_type_vec@.len() ==> 0 <= #[trigger] attribute_offset(
                attribute_type_vec@,
                attribute_size_vec@,
                i,
            ) <= usize::MAX),
{
    let ghost types = attribute_type_vec@;
    let ghost sizes = attribute_size_vec@;
    let count: usize = attribute_type_vec.len();
    let mut bytes: i128 = 0;
    let mut offsets_fit: bool = true;
    let mut i: usize = 0;
    while i < count
        invariant
            types == attribute_type_vec@,
            sizes == attribute_size_vec@,
            count == types.len(),
            count == sizes.len(),
            i <= count,
            bytes == attribute_offset(types, sizes, i as int),
            -0x4_0000_0000 * i <= bytes <= 0x4_0000_0000 * i,
            offsets_fit == (forall|k: int|
                0 <= k < i ==> 0 <= #[trigger] attribute_offset(types, sizes, k) <= usize::MAX),
        decreases count - i,
    {
        if bytes < 0 || bytes > usize::MAX as i128 {
            assert(!(0 <= attribute_offset(types, sizes, i as int) <= usize::MAX));
            offsets_fit = false;
        }
        proof {
            lemma_attribute_bytes_bounded(types, sizes, i as int);
        }
        let width: usize = component_size(attribute_type_vec[i]);
        bytes = bytes + attribute_size_vec[i] as i128 * width as i128;
        i = i + 1;
    }
    (bytes, offsets_fit)
}

/// A vertex array object together with the buffer object that backs it and
/// the number of vertices to draw from it.
///
/// The handles are fixed at construction. Nothing here ever changes them, so
/// a `Vertex` keeps naming the objects, and the layout, it was set up with.
#[derive(Debug)]
pub struct Vertex {
    vao: u32,
    vbo: u32,
    vertex_num: i32,
}

impl Vertex {
    /// Handle of the vertex array object.
    pub closed spec fn vao(&self) -> u32 {
        self.vao
    }

    /// Handle of the buffer object.
    pub closed spec fn vbo(&self) -> u32 {
        self.vbo
    }

    /// Number of vertices a draw covers.
    pub closed spec fn vertex_num(&self) -> i32 {
        self.vertex_num
    }

    /// The stride of vertices whose attributes follow each other without a
    /// gap: the byte length of all components of one vertex, each counted
    /// with the size of its own type.
    ///
    /// `None` where the two vectors differ in length, or the length is
    /// negative or more than a stride can say.
    pub fn packed_stride(
        attribute_type_vec: &Vec<u32>,
        attribute_size_vec: &Vec<i32>,
    ) -> (stride: Option<i32>)
        ensures
            stride == packed_stride_of(attribute_type_vec@, attribute_size_vec@),
    {
        if attribute_type_vec.len() != attribute_size_vec.len() {
            return None;
        }
        let (bytes, _) = measure_layout(attribute_type_vec, attribute_size_vec);
        if 0 <= bytes && bytes <= i32::MAX as i128 {
            Some(bytes as i32)
        } else {
            None
        }
    }

    /// The byte length of `vertex_num` tightly packed vertices. `None` where
    /// there is no packed stride, or the length is negative or more than a
    /// buffer size can say.
    pub fn packed_size(
        attribute_type_vec: &Vec<u32>,
        attribute_size_vec: &Vec<i32>,
        vertex_num: i32,
    ) -> (size: Option<isize>)
        ensures
            size == packed_size_of(attribute_type_vec@, attribute_size_vec@, vertex_num),
    {
        match Vertex::packed_stride(attribute_type_vec, attribute_size_vec) {
            Some(stride) => {
                assert(-0x4000_0000_0000_0000 <= stride * vertex_num <= 0x4000_0000_0000_0000)
                    by (nonlinear_arith)
                    requires
                        0 <= stride <= 0x7fff_ffff,
                        -0x8000_0000 <= vertex_num <= 0x7fff_ffff,
                ;
                let bytes: i128 = stride as i128 * vertex_num as i128;
                if 0 <= bytes && bytes <= isize::MAX as i128 {
                    Some(bytes as isize)
                } else {
                    None
                }
            },
            None => None,
        }
    }

    /// Tells whether `Vertex::new` accepts a layout.
    pub fn layout_is_valid(
        attribute_type_vec: &Vec<u32>,
        attribute_size_vec: &Vec<i32>,
    ) -> (valid: bool)
        ensures
            valid == layout_fits(attribute_type_vec@, attribute_size_vec@),
    {
        let count: usize = attribute_type_vec.len();
        if count != attribute_size_vec.len() {
            return false;
        }
        if count as u128 > u32::MAX as u128 + 1 {
            return false;
        }
        let (_, offsets_fit) = measure_layout(attribute_type_vec, attribute_size_vec);
        offsets_fit
    }

    /// Wraps the freshly generated objects `vao` and `vbo` and plans their
    /// setup.
    ///
    /// `size` is the byte length of the vertex data and `usage` its usage
    /// hint. Attribute slot `i` holds `attribute_size_vec[i]` components of
    /// type `attribute_type_vec[i]` and starts where slot `i - 1` ends, slot
    /// 0 at the beginning of the vertex; consecutive vertices lie `stride`
    /// bytes apart; a draw covers `vertex_num` vertices.
    ///
    /// Returns the `Vertex` and the calls that set it up, to be carried out
    /// in order. The vertex data itself is supplied with the upload call.
    pub fn new(
        vao: u32,
        vbo: u32,
        size: isize,
        usage: u32,
        attribute_type_vec: Vec<u32>,
        attribute_size_vec: Vec<i32>,
        stride: i32,
        vertex_num: i32,
    ) -> (created: (Vertex, Vec<GlCall>))
        requires
            layout_fits(attribute_type_vec@, attribute_size_vec@),
        ensures
            created.0.vao() == vao,
            created.0.vbo() == vbo,
            created.0.vertex_num() == vertex_num,
            created.1@ == setup_calls(
                vao,
                vbo,
                size,
                usage,
                attribute_type_vec@,
                attribute_size_vec@,
                stride,
            ),
    {
        let ghost types = attribute_type_vec@;
        let ghost sizes = attribute_size_vec@;
        let ghost planned = attribute_calls(types, sizes, stride);

        let mut calls: Vec<GlCall> = Vec::new();
        calls.push(GlCall::BindVertexArray { array: vao });
        calls.push(GlCall::BindArrayBuffer { buffer: vbo });
        calls.push(GlCall::ArrayBufferData { byte_len: size, usage });

        let count: usize = attribute_type_vec.len();
        let mut offset: usize = 0;
        let mut i: usize = 0;
        while i < count
            invariant
                types == attribute_type_vec@,
                sizes == attribute_size_vec@,
                planned == attribute_calls(types, sizes, stride),
                layout_fits(types, sizes),
                count == types.len(),
                i <= count,
                i < count ==> offset == attribute_offset(types, sizes, i as int),
                calls@.len() == 3 + 2 * i,
                calls@[0] == (GlCall::BindVertexArray { array: vao }),
                calls@[1] == (GlCall::BindArrayBuffer { buffer: vbo }),
                calls@[2] == (GlCall::ArrayBufferData { byte_len: size, usage }),
                forall|k: int| 0 <= k < 2 * i ==> calls@[3 + k] == planned[k],
            decreases count - i,
        {
            let ghost before = calls@;
            let index: u32 = i as u32;
            let kind: u32 = attribute_type_vec[i];
            calls.push(GlCall::EnableVertexAttribArray { index });
            calls.push(
                GlCall::VertexAttribPointer {
                    index,
                    size: attribute_size_vec[i],
                    kind,
                    normalized: false,
                    stride,
                    offset,
                },
            );
            proof {
                assert forall|k: int| 0 <= k < 2 * (i + 1) implies calls@[3 + k] == planned[k] by {
                    if k < 2 * i {
                        assert(calls@[3 + k] == before[3 + k]);
                    }
                }
            }
            if i + 1 < count {
                proof {
                    lemma_attribute_bytes_bounded(types, sizes, i as int);
                    assert(0 <= attribute_offset(types, sizes, i + 1) <= usize::MAX);
                }
                let width: usize = component_size(kind);
                let next: i128 = offset as i128 + attribute_size_vec[i] as i128 * width as i128;
                offset = next as usize;
            }
            i = i + 1;
        }
        calls.push(GlCall::BindArrayBuffer { buffer: 0 });
        calls.push(GlCall::BindVertexArray { array: 0 });
        proof {
            assert(calls@ =~= setup_calls(vao, vbo, size, usage, types, sizes, stride));
        }
        (Vertex { vao, vbo, vertex_num }, calls)
    }

    /// The calls that draw the buffer: bind the vertex array, draw
    /// `vertex_num` vertices from index 0 as a triangle list, unbind.
    pub fn draw(&self) -> (calls: Vec<GlCall>)
        ensures
            calls@ == draw_calls(self.vao(), self.vertex_num()),
    {
        let mut calls: Vec<GlCall> = Vec::new();
        calls.push(GlCall::BindVertexArray { array: self.vao });
        calls.push(GlCall::DrawTriangles { first: 0, count: self.vertex_num });
        calls.push(GlCall::BindVertexArray { array: 0 });
        proof {
            assert(calls@ =~= draw_calls(self.vao(), self.vertex_num()));
        }
        calls
    }

    /// Gives both objects up: the calls that delete the buffer and the
    /// vertex array. The `Vertex` is gone with this, so nothing can draw
    /// from the handles afterwards.
    pub fn release(self) -> (calls: Vec<GlCall>)
        ensures
            calls@ == release_calls(self.vao(), self.vbo()),
    {
        let mut calls: Vec<GlCall> = Vec::new();
        calls.push(GlCall::DeleteBuffer { buffer: self.vbo });
        calls.push(GlCall::DeleteVertexArray { array: self.vao });
        proof {
            assert(calls@ =~= release_calls(self.vao(), self.vbo()));
        }
        calls
    }
}

} // verus!
