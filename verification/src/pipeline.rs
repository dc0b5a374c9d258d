//! The text render pipeline: the shader program, the vertex array and buffer,
//! and the projection uniform.
//!
//! One vertex record describes one glyph quad. The four corners of the quad
//! are derived in the vertex stage, so the draw is instanced: every attribute
//! advances once per glyph, not once per corner.

use vstd::prelude::*;
use vstd::string::StringExecFns;
use crate::decimal::{append_decimal, decimal};
use crate::codes::{
    ARRAY_BUFFER, BLEND, DYNAMIC_DRAW, FALSE, FLOAT, FRAMEBUFFER_SRGB, ONE, SRC_ALPHA,
    TRIANGLE_STRIP,
};
use crate::projection::{matrix_view, viewport_matrix, viewport_projection, Ratio};

verus! {

/// Scalars in one vertex record.
pub const VERTEX_SCALARS: usize = 13;

/// Bytes in one scalar of a vertex record.
pub const SCALAR_BYTES: usize = 4;

/// Bytes in one vertex record; also the stride of every attribute.
pub const VERTEX_BYTES: usize = 52;

/// Attributes in one vertex record.
pub const FIELD_COUNT: usize = 5;

/// Corners of the triangle strip that makes one quad.
pub const QUAD_CORNERS: i32 = 4;

/// The attributes of a vertex record, in the order in which they lie in it.
#[derive(Clone, Copy, Debug, PartialEq, Eq)]
pub enum VertexField {
    LeftTop,
    RightBottom,
    TexLeftTop,
    TexRightBottom,
    Color,
}

impl VertexField {
    /// The field at position `i` of the record.
    pub open spec fn at(i: int) -> VertexField {
        if i <= 0 {
            VertexField::LeftTop
        } else if i == 1 {
            VertexField::RightBottom
        } else if i == 2 {
            VertexField::TexLeftTop
        } else if i == 3 {
            VertexField::TexRightBottom
        } else {
            VertexField::Color
        }
    }

    pub open spec fn spec_index(self) -> int {
        match self {
            VertexField::LeftTop => 0,
            VertexField::RightBottom => 1,
            VertexField::TexLeftTop => 2,
            VertexField::TexRightBottom => 3,
            VertexField::Color => 4,
        }
    }

    pub open spec fn spec_components(self) -> int {
        match self {
            VertexField::LeftTop => 3,
            VertexField::RightBottom => 2,
            VertexField::TexLeftTop => 2,
            VertexField::TexRightBottom => 2,
            VertexField::Color => 4,
        }
    }

    pub open spec fn spec_name(self) -> Seq<char> {
        match self {
            VertexField::LeftTop => "left_top"@,
            VertexField::RightBottom => "right_bottom"@,
            VertexField::TexLeftTop => "tex_left_top"@,
            VertexField::TexRightBottom => "tex_right_bottom"@,
            VertexField::Color => "color"@,
        }
    }

    /// Where the field starts in the record: right behind the fields before
    /// it.
    pub open spec fn spec_offset(self) -> int {
        bytes_before(self.spec_index())
    }

    /// The fields in record order.
    pub fn all() -> (fields: [VertexField; 5])
        ensures
            forall|i: int| 0 <= i < 5 ==> fields[i] == VertexField::at(i),
    {
        [
            VertexField::LeftTop,
            VertexField::RightBottom,
            VertexField::TexLeftTop,
            VertexField::TexRightBottom,
            VertexField::Color,
        ]
    }

    /// The field's position in the record.
    pub fn index(&self) -> (i: usize)
        ensures
            i == self.spec_index(),
            i < FIELD_COUNT,
            VertexField::at(i as int) == *self,
    {
        match self {
            VertexField::LeftTop => 0,
            VertexField::RightBottom => 1,
            VertexField::TexLeftTop => 2,
            VertexField::TexRightBottom => 3,
            VertexField::Color => 4,
        }
    }

    /// The attribute's name in the shader program.
    pub fn name(&self) -> (name: &'static str)
        ensures
            name@ == self.spec_name(),
    {
        match self {
            VertexField::LeftTop => "left_top",
            VertexField::RightBottom => "right_bottom",
            VertexField::TexLeftTop => "tex_left_top",
            VertexField::TexRightBottom => "tex_right_bottom",
            VertexField::Color => "color",
        }
    }

    /// How many scalars the attribute has.
    pub fn components(&self) -> (n: i32)
        ensures
            n == self.spec_components(),
    {
        match self {
            VertexField::LeftTop => 3,
            VertexField::RightBottom => 2,
            VertexField::TexLeftTop => 2,
            VertexField::TexRightBottom => 2,
            VertexField::Color => 4,
        }
    }

    /// The attribute's byte offset in the record.
    pub fn offset(&self) -> (bytes: usize)
        ensures
            bytes == self.spec_offset(),
            bytes + self.spec_components() * SCALAR_BYTES <= VERTEX_BYTES,
    {
        proof {
            reveal_with_fuel(bytes_before, 6);
        }
        match self {
            VertexField::LeftTop => 0,
            VertexField::RightBottom => 12,
            VertexField::TexLeftTop => 20,
            VertexField::TexRightBottom => 28,
            VertexField::Color => 36,
        }
    }
}

/// The bytes that the first `i` fields of a record take.
pub open spec fn bytes_before(i: int) -> int
    decreases i,
{
    if i <= 0 {
        0
    } else {
        bytes_before(i - 1) + VertexField::at(i - 1).spec_components() * SCALAR_BYTES
    }
}

/// The five fields fill the record exactly: thirteen scalars, no gap and no
/// overlap.
pub proof fn lemma_fields_fill_record()
    ensures
        bytes_before(FIELD_COUNT as int) == VERTEX_BYTES,
        VERTEX_BYTES == VERTEX_SCALARS * SCALAR_BYTES,
        forall|i: int|
            0 <= i < FIELD_COUNT ==> #[trigger] bytes_before(i + 1) == bytes_before(i) + VertexField::at(
                i,
            ).spec_components() * SCALAR_BYTES,
{
    reveal_with_fuel(bytes_before, 6);
}

/// The scalars of the five fields of one glyph quad.
#[derive(Debug)]
pub struct QuadFields<T> {
    /// The quad's left edge, its top edge and its depth.
    pub left_top: [T; 3],
    /// The quad's right edge and its bottom edge.
    pub right_bottom: [T; 2],
    /// The atlas coordinates that belong to the left top corner.
    pub tex_left_top: [T; 2],
    /// The atlas coordinates that belong to the right bottom corner.
    pub tex_right_bottom: [T; 2],
    /// Red, green, blue and alpha.
    pub color: [T; 4],
}

impl<T> QuadFields<T> {
    /// Scalar `k` of the field `field`.
    pub open spec fn scalar(self, field: VertexField, k: int) -> T {
        match field {
            VertexField::LeftTop => self.left_top[k],
            VertexField::RightBottom => self.right_bottom[k],
            VertexField::TexLeftTop => self.tex_left_top[k],
            VertexField::TexRightBottom => self.tex_right_bottom[k],
            VertexField::Color => self.color[k],
        }
    }
}

/// Lays the fields of one quad out as a vertex record. Every scalar of every
/// field ends up where the field's attribute pointer reads it: at the
/// field's byte offset, `SCALAR_BYTES` apart.
pub fn vertex_record<T: Copy>(quad: QuadFields<T>) -> (record: [T; 13])
    ensures
        forall|i: int, k: int|
            0 <= i < FIELD_COUNT && 0 <= k < VertexField::at(i).spec_components() ==> {
                &&& 0 <= #[trigger] slot(VertexField::at(i), k) < VERTEX_SCALARS
                &&& record[slot(VertexField::at(i), k)] == quad.scalar(VertexField::at(i), k)
            },
{
    proof {
        reveal_with_fuel(bytes_before, 6);
    }
    [
        quad.left_top[0],
        quad.left_top[1],
        quad.left_top[2],
        quad.right_bottom[0],
        quad.right_bottom[1],
        quad.tex_left_top[0],
        quad.tex_left_top[1],
        quad.tex_right_bottom[0],
        quad.tex_right_bottom[1],
        quad.color[0],
        quad.color[1],
        quad.color[2],
        quad.color[3],
    ]
}

/// A point of the plane.
#[derive(Debug)]
pub struct Point<T> {
    pub x: T,
    pub y: T,
}

/// A rectangle whose sides lie along the axes, by the corner with the least
/// and the corner with the greatest coordinates.
#[derive(Debug)]
pub struct Rect<T> {
    pub min: Point<T>,
    pub max: Point<T>,
}

/// The vertex record of the glyph that covers `pixels` on the screen at
/// `depth` and shows `texels` of the atlas in `color`: left, top and depth,
/// then right and bottom, then the atlas coordinates of the same two corners,
/// then the color. The quad's top is the rectangle's greatest y, on the
/// screen and in the atlas alike: the rectangles' y axis points down, the
/// quad's up.
pub fn glyph_record<T: Copy>(pixels: Rect<T>, texels: Rect<T>, depth: T, color: [T; 4]) -> (record: [
    T;
    13
])
    ensures
        record[0] == pixels.min.x,
        record[1] == pixels.max.y,
        record[2] == depth,
        record[3] == pixels.max.x,
        record[4] == pixels.min.y,
        record[5] == texels.min.x,
        record[6] == texels.max.y,
        record[7] == texels.max.x,
        record[8] == texels.min.y,
        record[9] == color[0],
        record[10] == color[1],
        record[11] == color[2],
        record[12] == color[3],
{
    let quad = QuadFields {
        left_top: [pixels.min.x, pixels.max.y, depth],
        right_bottom: [pixels.max.x, pixels.min.y],
        tex_left_top: [texels.min.x, texels.max.y],
        tex_right_bottom: [texels.max.x, texels.min.y],
        color,
    };
    proof {
        reveal_with_fuel(bytes_before, 6);
        assert(slot(VertexField::at(0), 0) == 0 && slot(VertexField::at(0), 1) == 1 && slot(
            VertexField::at(0),
            2,
        ) == 2);
        assert(slot(VertexField::at(1), 0) == 3 && slot(VertexField::at(1), 1) == 4);
        assert(slot(VertexField::at(2), 0) == 5 && slot(VertexField::at(2), 1) == 6);
        assert(slot(VertexField::at(3), 0) == 7 && slot(VertexField::at(3), 1) == 8);
        assert(slot(VertexField::at(4), 0) == 9 && slot(VertexField::at(4), 1) == 10 && slot(
            VertexField::at(4),
            2,
        ) == 11 && slot(VertexField::at(4), 3) == 12);
    }
    vertex_record(quad)
}

/// The position in the record of scalar `k` of `field`.
pub open spec fn slot(field: VertexField, k: int) -> int {
    field.spec_offset() / (SCALAR_BYTES as int) + k
}

/// How the driver reads one attribute out of the vertex buffer.
#[derive(Clone, Copy, Debug, PartialEq, Eq)]
pub struct AttribPointer {
    pub location: u32,
    pub components: i32,
    pub component_type: u32,
    pub normalized: u8,
    pub stride: i32,
    pub offset: usize,
    pub divisor: u32,
}

/// The pointer of `field` at the resolved `location`: unnormalized floats, a
/// stride of one whole record, one value per instance.
pub open spec fn pointer_for(field: VertexField, location: i32) -> AttribPointer {
    AttribPointer {
        location: location as u32,
        components: field.spec_components() as i32,
        component_type: FLOAT,
        normalized: FALSE,
        stride: VERTEX_BYTES as i32,
        offset: field.spec_offset() as usize,
        divisor: 1,
    }
}

/// Writes the projection matrix to the program's uniform.
#[derive(Clone, Copy, Debug)]
pub struct TransformUpload {
    pub program: u32,
    pub location: i32,
    pub count: i32,
    pub transpose: u8,
    pub matrix: [Ratio; 16],
}

/// Fills the vertex buffer.
#[derive(Clone, Copy, Debug, PartialEq, Eq)]
pub enum BufferUpload {
    /// Allocate the buffer anew at `byte_len` bytes and fill it.
    Allocate { vao: u32, vbo: u32, target: u32, byte_len: isize, usage: u32 },
    /// Overwrite the first `byte_len` bytes of the buffer in place.
    Overwrite { vao: u32, vbo: u32, target: u32, offset: isize, byte_len: isize },
}

/// Draws every uploaded glyph as one instance of a four-corner strip.
#[derive(Clone, Copy, Debug, PartialEq, Eq)]
pub struct DrawCommand {
    pub program: u32,
    pub vao: u32,
    pub mode: u32,
    pub first: i32,
    pub count: i32,
    pub instances: i32,
}

/// One driver object to delete.
#[derive(Clone, Copy, Debug, PartialEq, Eq)]
pub enum Release {
    Program(u32),
    Shader(u32),
    Buffer(u32),
    VertexArray(u32),
}

/// Why the pipeline could not be set up.
#[derive(Clone, Copy, Debug, PartialEq, Eq)]
pub enum PipeError {
    /// The program has no `transform` uniform; `location` is what the driver
    /// answered.
    MissingUniform { location: i32 },
    /// The program lacks the attribute `field`; `location` is what the driver
    /// answered.
    MissingAttribute { field: VertexField, location: i32 },
}

impl PipeError {
    /// The error in words: which lookup failed and what the driver answered.
    pub open spec fn spec_message(self) -> Seq<char> {
        match self {
            PipeError::MissingUniform { location } => "GetUniformLocation(\"transform\") -> "@
                + decimal(location as int),
            PipeError::MissingAttribute { field, location } => field.spec_name()
                + " GetAttribLocation -> "@ + decimal(location as int),
        }
    }

    /// The text to show for the error.
    pub fn message(&self) -> (text: String)
        ensures
            text@ == self.spec_message(),
    {
        match self {
            PipeError::MissingUniform { location } => {
                let mut text = String::from_str("GetUniformLocation(\"transform\") -> ");
                append_decimal(*location as i64, &mut text);
                text
            },
            PipeError::MissingAttribute { field, location } => {
                let mut text = String::from_str(field.name());
                text.append(" GetAttribLocation -> ");
                append_decimal(*location as i64, &mut text);
                text
            },
        }
    }
}

/// The driver objects that a pipeline is made of.
#[derive(Clone, Copy, Debug)]
pub struct PipeHandles {
    pub shaders: [u32; 2],
    pub program: u32,
    pub vao: u32,
    pub vbo: u32,
}

impl PipeHandles {
    /// What to delete when the objects are given up, in this order: the
    /// program, the two shaders, the buffer, the vertex array. The program
    /// goes first; deleting it does not need its shaders to exist still.
    pub fn teardown(&self) -> (releases: [Release; 5])
        ensures
            releases[0] == Release::Program(self.program),
            releases[1] == Release::Shader(self.shaders[0]),
            releases[2] == Release::Shader(self.shaders[1]),
            releases[3] == Release::Buffer(self.vbo),
            releases[4] == Release::VertexArray(self.vao),
    {
        [
            Release::Program(self.program),
            Release::Shader(self.shaders[0]),
            Release::Shader(self.shaders[1]),
            Release::Buffer(self.vbo),
            Release::VertexArray(self.vao),
        ]
    }
}

/// What is left to tell the driver once the pipeline's locations are known to
/// be valid.
#[derive(Clone, Copy, Debug)]
pub struct PipeSetup {
    pub transform: TransformUpload,
    pub attributes: [AttribPointer; 5],
    pub blend_source: u32,
    pub blend_destination: u32,
    pub enable: [u32; 2],
    pub clear_color: [Ratio; 4],
}

/// The name of the projection uniform in the shader program.
pub fn transform_uniform_name() -> (name: &'static str)
    ensures
        name@ == "transform"@,
{
    "transform"
}

/// The name of the fragment stage's output, bound to color number 0.
pub fn fragment_output_name() -> (name: &'static str)
    ensures
        name@ == "out_color"@,
{
    "out_color"
}

/// The color that the frame is cleared to: a dark grey of 2/100 in each
/// channel, fully opaque.
pub fn clear_color() -> (rgba: [Ratio; 4])
    ensures
        rgba[0] == (Ratio { num: 2, den: 100 }),
        rgba[1] == (Ratio { num: 2, den: 100 }),
        rgba[2] == (Ratio { num: 2, den: 100 }),
        rgba[3] == (Ratio { num: 1, den: 1 }),
{
    let grey = Ratio { num: 2, den: 100 };
    [grey, grey, grey, Ratio { num: 1, den: 1 }]
}

/// The first position at or after `from` whose location is negative, or the
/// number of locations if there is none.
pub open spec fn first_missing(locations: Seq<i32>, from: int) -> int
    decreases locations.len() - from,
{
    if from < 0 || from >= locations.len() {
        locations.len() as int
    } else if locations[from] < 0 {
        from
    } else {
        first_missing(locations, from + 1)
    }
}

/// `first_missing` finds a negative location whenever there is one, and the
/// first of them.
pub proof fn lemma_first_missing(locations: Seq<i32>, from: int)
    requires
        0 <= from <= locations.len(),
    ensures
        from <= first_missing(locations, from) <= locations.len(),
        first_missing(locations, from) < locations.len() ==> locations[first_missing(
            locations,
            from,
        )] < 0,
        forall|k: int| from <= k < first_missing(locations, from) ==> locations[k] >= 0,
    decreases locations.len() - from,
{
    if from < locations.len() && locations[from] >= 0 {
        lemma_first_missing(locations, from + 1);
    }
}

/// So many records can be held in one buffer and drawn in one call: the
/// count fits the driver's signed instance count and the bytes fit its signed
/// buffer size.
pub open spec fn storable(count: usize) -> bool {
    count <= i32::MAX && count * VERTEX_BYTES <= isize::MAX
}

/// The capacity of a buffer of capacity `capacity` after `count` records
/// were uploaded to it.
pub open spec fn grown(capacity: int, count: int) -> int {
    if capacity < count {
        count
    } else {
        capacity
    }
}

/// The capacity of a buffer that started at `capacity` after a series of
/// uploads with the given record counts.
pub open spec fn capacity_after(capacity: int, counts: Seq<int>) -> int
    decreases counts.len(),
{
    if counts.len() == 0 {
        capacity
    } else {
        grown(capacity_after(capacity, counts.drop_last()), counts.last())
    }
}

/// Whether `count` records can be held in one buffer and drawn in one call.
pub fn can_store(count: usize) -> (ok: bool)
    ensures
        ok == storable(count),
{
    count <= i32::MAX as usize && count <= isize::MAX as usize / VERTEX_BYTES
}

/// The state of the pipeline: its driver objects, the location of the
/// projection uniform, how many records the last upload held and how many
/// the buffer has room for.
#[derive(Debug)]
pub struct GLTextPipe {
    pub shaders: [u32; 2],
    pub program: u32,
    pub vao: u32,
    pub vbo: u32,
    pub transform_uniform: i32,
    pub vertex_count: usize,
    pub vertex_buffer_len: usize,
}

impl GLTextPipe {
    /// The buffer has room for what was uploaded, and what it has room for
    /// can be stored and drawn.
    pub open spec fn wf(&self) -> bool {
        &&& self.vertex_count <= self.vertex_buffer_len
        &&& storable(self.vertex_buffer_len)
    }

    /// The pipeline over `handles` right after construction: nothing
    /// uploaded, no buffer storage yet.
    pub open spec fn fresh(handles: PipeHandles, transform_uniform: i32) -> GLTextPipe {
        GLTextPipe {
            shaders: handles.shaders,
            program: handles.program,
            vao: handles.vao,
            vbo: handles.vbo,
            transform_uniform,
            vertex_count: 0,
            vertex_buffer_len: 0,
        }
    }

    /// Whether the pipeline is well formed.
    pub fn is_well_formed(&self) -> (ok: bool)
        ensures
            ok == self.wf(),
    {
        self.vertex_count <= self.vertex_buffer_len && can_store(self.vertex_buffer_len)
    }

    /// Checks the locations that the driver resolved and lays out the
    /// pipeline.
    ///
    /// `transform_uniform` is the location of the uniform `transform`, and
    /// `attributes` holds the locations of the five vertex fields in record
    /// order. A negative location means that the program has no such
    /// variable. The uniform is looked at first, then the fields in order, and
    /// the first that is missing is reported.
    pub fn new(
        window_size: (u32, u32),
        handles: PipeHandles,
        transform_uniform: i32,
        attributes: [i32; 5],
    ) -> (outcome: Result<(GLTextPipe, PipeSetup), PipeError>)
        ensures
            transform_uniform < 0 ==> outcome == Err::<(GLTextPipe, PipeSetup), PipeError>(
                PipeError::MissingUniform { location: transform_uniform },
            ),
            transform_uniform >= 0 && first_missing(attributes@, 0) < 5 ==> outcome == Err::<
                (GLTextPipe, PipeSetup),
                PipeError,
            >(
                PipeError::MissingAttribute {
                    field: VertexField::at(first_missing(attributes@, 0)),
                    location: attributes[first_missing(attributes@, 0)],
                },
            ),
            transform_uniform >= 0 && first_missing(attributes@, 0) >= 5 ==> outcome is Ok,
            outcome matches Ok((pipe, setup)) ==> {
                &&& pipe == GLTextPipe::fresh(handles, transform_uniform)
                &&& pipe.wf()
                &&& setup.transform.program == handles.program
                &&& setup.transform.location == transform_uniform
                &&& setup.transform.count == 1
                &&& setup.transform.transpose == FALSE
                &&& matrix_view(setup.transform.matrix) == viewport_matrix(window_size.0, window_size.1)
                &&& forall|i: int|
                    0 <= i < 5 ==> #[trigger] setup.attributes[i] == pointer_for(
                        VertexField::at(i),
                        attributes[i],
                    )
                &&& forall|i: int| 0 <= i < 5 ==> #[trigger] attributes[i] >= 0
                &&& setup.blend_source == SRC_ALPHA
                &&& setup.blend_destination == ONE
                &&& setup.enable[0] == BLEND
                &&& setup.enable[1] == FRAMEBUFFER_SRGB
                &&& setup.clear_color[0] == (Ratio { num: 2, den: 100 })
                &&& setup.clear_color[1] == (Ratio { num: 2, den: 100 })
                &&& setup.clear_color[2] == (Ratio { num: 2, den: 100 })
                &&& setup.clear_color[3] == (Ratio { num: 1, den: 1 })
            },
    {
        if transform_uniform < 0 {
            return Err(PipeError::MissingUniform { location: transform_uniform });
        }
        let fields = VertexField::all();
        let blank = AttribPointer {
            location: 0,
            components: 0,
            component_type: FLOAT,
            normalized: FALSE,
            stride: VERTEX_BYTES as i32,
            offset: 0,
            divisor: 1,
        };
        let mut pointers: [AttribPointer; 5] = [blank; 5];
        let mut i: usize = 0;
        while i < 5
            invariant
                0 <= i <= 5,
                transform_uniform >= 0,
                forall|k: int| 0 <= k < 5 ==> fields[k] == VertexField::at(k),
                forall|k: int| 0 <= k < i ==> #[trigger] attributes[k] >= 0,
                forall|k: int|
                    0 <= k < i ==> #[trigger] pointers[k] == pointer_for(VertexField::at(k), attributes[k]),
                first_missing(attributes@, 0) == first_missing(attributes@, i as int),
            decreases 5 - i,
        {
            let field = fields[i];
            let location = attributes[i];
            if location < 0 {
                return Err(PipeError::MissingAttribute { field, location });
            }
            pointers[i] = AttribPointer {
                location: location as u32,
                components: field.components(),
                component_type: FLOAT,
                normalized: FALSE,
                stride: VERTEX_BYTES as i32,
                offset: field.offset(),
                divisor: 1,
            };
            i += 1;
        }
        let pipe = GLTextPipe {
            shaders: handles.shaders,
            program: handles.program,
            vao: handles.vao,
            vbo: handles.vbo,
            transform_uniform,
            vertex_count: 0,
            vertex_buffer_len: 0,
        };
        let setup = PipeSetup {
            transform: pipe.update_geometry(window_size),
            attributes: pointers,
            blend_source: SRC_ALPHA,
            blend_destination: ONE,
            enable: [BLEND, FRAMEBUFFER_SRGB],
            clear_color: clear_color(),
        };
        Ok((pipe, setup))
    }

    /// Takes note of an upload of `count` vertex records and says how to
    /// perform it: where the buffer is too small it is allocated anew at
    /// exactly `count` records, otherwise its front is overwritten in place.
    /// The buffer never shrinks.
    pub fn upload_vertices(&mut self, count: usize) -> (upload: BufferUpload)
        requires
            old(self).wf(),
            storable(count),
        ensures
            final(self).wf(),
            final(self).vertex_count == count,
            final(self).vertex_buffer_len == grown(
                old(self).vertex_buffer_len as int,
                count as int,
            ),
            final(self).vertex_buffer_len >= old(self).vertex_buffer_len,
            final(self).vertex_buffer_len >= count,
            final(self).shaders == old(self).shaders,
            final(self).program == old(self).program,
            final(self).vao == old(self).vao,
            final(self).vbo == old(self).vbo,
            final(self).transform_uniform == old(self).transform_uniform,
            count <= old(self).vertex_buffer_len ==> upload == (BufferUpload::Overwrite {
                vao: old(self).vao,
                vbo: old(self).vbo,
                target: ARRAY_BUFFER,
                offset: 0,
                byte_len: (count * VERTEX_BYTES) as isize,
            }),
            count > old(self).vertex_buffer_len ==> upload == (BufferUpload::Allocate {
                vao: old(self).vao,
                vbo: old(self).vbo,
                target: ARRAY_BUFFER,
                byte_len: (count * VERTEX_BYTES) as isize,
                usage: DYNAMIC_DRAW,
            }),
    {
        self.vertex_count = count;
        let byte_len: isize = (count * VERTEX_BYTES) as isize;
        if self.vertex_buffer_len < count {
            self.vertex_buffer_len = count;
            BufferUpload::Allocate {
                vao: self.vao,
                vbo: self.vbo,
                target: ARRAY_BUFFER,
                byte_len,
                usage: DYNAMIC_DRAW,
            }
        } else {
            BufferUpload::Overwrite {
                vao: self.vao,
                vbo: self.vbo,
                target: ARRAY_BUFFER,
                offset: 0,
                byte_len,
            }
        }
    }

    /// The upload of the projection for a window of the given size.
    pub fn update_geometry(&self, window_size: (u32, u32)) -> (upload: TransformUpload)
        ensures
            upload.program == self.program,
            upload.location == self.transform_uniform,
            upload.count == 1,
            upload.transpose == FALSE,
            matrix_view(upload.matrix) == viewport_matrix(window_size.0, window_size.1),
    {
        TransformUpload {
            program: self.program,
            location: self.transform_uniform,
            count: 1,
            transpose: FALSE,
            matrix: viewport_projection(window_size.0, window_size.1),
        }
    }

    /// The draw of everything that was uploaded last: one instance per
    /// record. With no records it draws nothing.
    pub fn draw(&self) -> (command: DrawCommand)
        requires
            self.wf(),
        ensures
            command == (DrawCommand {
                program: self.program,
                vao: self.vao,
                mode: TRIANGLE_STRIP,
                first: 0,
                count: QUAD_CORNERS,
                instances: self.vertex_count as i32,
            }),
            command.instances == self.vertex_count,
    {
        DrawCommand {
            program: self.program,
            vao: self.vao,
            mode: TRIANGLE_STRIP,
            first: 0,
            count: QUAD_CORNERS,
            instances: self.vertex_count as i32,
        }
    }

    /// The driver objects of the pipeline.
    pub fn handles(&self) -> (handles: PipeHandles)
        ensures
            handles.shaders == self.shaders,
            handles.program == self.program,
            handles.vao == self.vao,
            handles.vbo == self.vbo,
    {
        PipeHandles { shaders: self.shaders, program: self.program, vao: self.vao, vbo: self.vbo }
    }

    /// What to delete when the pipeline is given up, in this order: the
    /// program, the two shaders, the buffer, the vertex array.
    pub fn teardown(&self) -> (releases: [Release; 5])
        ensures
            releases[0] == Release::Program(self.program),
            releases[1] == Release::Shader(self.shaders[0]),
            releases[2] == Release::Shader(self.shaders[1]),
            releases[3] == Release::Buffer(self.vbo),
            releases[4] == Release::VertexArray(self.vao),
    {
        self.handles().teardown()
    }
}

/// Over any series of uploads the buffer's capacity never goes down: after
/// more of the series it is at least what it was after less of it.
pub proof fn lemma_capacity_never_shrinks(capacity: int, counts: Seq<int>, i: int, j: int)
    requires
        0 <= i <= j <= counts.len(),
    ensures
        capacity <= capacity_after(capacity, counts.take(i)) <= capacity_after(
            capacity,
            counts.take(j),
        ),
    decreases j,
{
    if j == 0 {
        assert(counts.take(0).len() == 0);
    } else if i == j {
        lemma_capacity_never_shrinks(capacity, counts, 0, i - 1);
        assert(counts.take(i).drop_last() =~= counts.take(i - 1));
    } else {
        lemma_capacity_never_shrinks(capacity, counts, i, j - 1);
        assert(counts.take(j).drop_last() =~= counts.take(j - 1));
    }
}

/// After a series of uploads the buffer has room for each of them, and it
/// has grown only where some upload asked for more than the buffer started
/// with: the capacity is the starting capacity or one of the counts.
pub proof fn lemma_capacity_is_largest_count(capacity: int, counts: Seq<int>)
    ensures
        forall|k: int| 0 <= k < counts.len() ==> counts[k] <= capacity_after(capacity, counts),
        capacity_after(capacity, counts) == capacity || exists|k: int|
            0 <= k < counts.len() && counts[k] == capacity_after(capacity, counts),
    decreases counts.len(),
{
    if counts.len() > 0 {
        let front = counts.drop_last();
        lemma_capacity_is_largest_count(capacity, front);
        assert forall|k: int| 0 <= k < counts.len() implies counts[k] <= capacity_after(
            capacity,
            counts,
        ) by {
            if k < front.len() {
                assert(front[k] == counts[k]);
            }
        }
        let before = capacity_after(capacity, front);
        if before < counts.last() {
            assert(counts[counts.len() - 1] == capacity_after(capacity, counts));
        } else if before != capacity {
            let k = choose|k: int| 0 <= k < front.len() && front[k] == before;
            assert(counts[k] == capacity_after(capacity, counts));
        }
    }
}

} // verus!
