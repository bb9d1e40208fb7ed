//! Graphics API calls as plain values.

use vstd::prelude::*;

verus! {

/// One of the three transforms a frame is drawn with.
#[derive(Clone, Copy, Debug, PartialEq, Eq)]
pub enum Matrix {
    /// Places the model in the world.
    Model,
    /// Places the world before the camera.
    View,
    /// Projects what the camera sees onto the screen.
    Projection,
}

/// One call into the graphics API, described by its arguments.
///
/// Neither pointers nor fractions appear here. A call that reads client
/// memory gets that memory from whoever carries it out: the vertex data for
/// `ArrayBufferData`, the elements of the named transform for
/// `UniformMatrix4`. A colour channel is a byte, 255 standing for full
/// intensity.
#[derive(Clone, Copy, Debug, PartialEq, Eq)]
pub enum GlCall {
    /// Make `array` the current vertex array object; `0` unbinds.
    BindVertexArray { array: u32 },
    /// Bind `buffer` to the array-buffer target; `0` unbinds.
    BindArrayBuffer { buffer: u32 },
    /// Allocate `byte_len` bytes for the bound array buffer and fill them
    /// from client memory, with the given usage hint.
    ArrayBufferData { byte_len: isize, usage: u32 },
    /// Enable the vertex attribute slot `index`.
    EnableVertexAttribArray { index: u32 },
    /// Describe the data of attribute slot `index`: `size` components of type
    /// `kind` per vertex, `stride` bytes from one vertex to the next, the
    /// first one `offset` bytes into the bound buffer.
    VertexAttribPointer {
        index: u32,
        size: i32,
        kind: u32,
        normalized: bool,
        stride: i32,
        offset: usize,
    },
    /// Draw `count` vertices, starting at `first`, as a list of triangles.
    DrawTriangles { first: i32, count: i32 },
    /// Delete the vertex array object `array`.
    DeleteVertexArray { array: u32 },
    /// Delete the buffer object `buffer`.
    DeleteBuffer { buffer: u32 },
    /// Make `program` the current shader program.
    UseProgram { program: u32 },
    /// Upload the transform `matrix`, as one 4x4 matrix that is not to be
    /// transposed, to the uniform at `location` of the current program.
    UniformMatrix4 { location: i32, matrix: Matrix },
    /// Delete the shader program `program`.
    DeleteProgram { program: u32 },
    /// Set the viewport rectangle, in pixels.
    Viewport { x: i32, y: i32, width: i32, height: i32 },
    /// Set the colour that clearing fills the colour buffer with.
    ClearColor { red: u8, green: u8, blue: u8, alpha: u8 },
    /// Clear the colour buffer.
    ClearColorBuffer,
}

} // verus!
