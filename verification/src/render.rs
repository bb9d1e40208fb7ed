//! One frame: the window it fills, the calls that draw it, and whether it is
//! drawn at all.

use vstd::prelude::*;
use crate::frame::{FrameLoop, FRAME_INTERVAL_NANOS};
use crate::gl_call::{GlCall, Matrix};
use crate::shader::{upload_call, Shader};
use crate::vertex::{draw_calls, Vertex};

verus! {

/// Width of the window, in pixels.
pub const WINDOW_WIDTH: u32 = 640;

/// Height of the window, in pixels.
pub const WINDOW_HEIGHT: u32 = 480;

/// The size of a window, in pixels.
///
/// Both sides are at least 1, so that the ratio of width to height is a
/// proper, non-zero number, and at most `i32::MAX`, so that the graphics API
/// can express them.
#[derive(Clone, Copy, Debug, PartialEq, Eq)]
pub struct WindowSize {
    width: u32,
    height: u32,
}

/// Where the uniforms of the three transforms were found in a program. A
/// negative location stands for a uniform that the program does not have.
#[derive(Clone, Copy, Debug, PartialEq, Eq)]
pub struct UniformLocations {
    pub model: i32,
    pub view: i32,
    pub projection: i32,
}

/// What the frame loop does once a poll cycle is over.
#[derive(Debug, PartialEq, Eq)]
pub enum Turn {
    /// Draw a frame: carry out `calls` in order, present the frame, then
    /// pause for `pause_nanos` nanoseconds before polling again.
    Frame { calls: Vec<GlCall>, pause_nanos: u32 },
    /// Leave the loop. Nothing is drawn any more.
    Leave,
}

/// Whether a window may be `width` by `height` pixels.
pub open spec fn size_supported(width: u32, height: u32) -> bool {
    1 <= width <= i32::MAX && 1 <= height <= i32::MAX
}

/// The viewport that covers a whole window of `width` by `height` pixels.
pub open spec fn full_viewport(width: u32, height: u32) -> GlCall {
    GlCall::Viewport { x: 0, y: 0, width: width as i32, height: height as i32 }
}

/// Zero or one call as a sequence.
pub open spec fn optional_call(call: Option<GlCall>) -> Seq<GlCall> {
    match call {
        Some(call) => seq![call],
        None => seq![],
    }
}

/// The uploads of the three transforms, model first, then view, then
/// projection, each only where its uniform was found.
pub open spec fn upload_calls(locations: UniformLocations) -> Seq<GlCall> {
    optional_call(upload_call(Matrix::Model, locations.model)) + optional_call(
        upload_call(Matrix::View, locations.view),
    ) + optional_call(upload_call(Matrix::Projection, locations.projection))
}

/// Everything that has to be issued, in order, to draw one frame: cover the
/// whole window, clear it to opaque white, make the program current, upload
/// the transforms, draw the vertex buffer.
pub open spec fn frame_call_seq(
    width: u32,
    height: u32,
    program: u32,
    locations: UniformLocations,
    vao: u32,
    vertex_num: i32,
) -> Seq<GlCall> {
    seq![
        full_viewport(width, height),
        GlCall::ClearColor { red: 255, green: 255, blue: 255, alpha: 255 },
        GlCall::ClearColorBuffer,
        GlCall::UseProgram { program },
    ] + upload_calls(locations) + draw_calls(vao, vertex_num)
}

impl Matrix {
    /// Name of the uniform that takes this transform.
    pub fn uniform_name(&self) -> (name: &'static str)
        ensures
            name@ == match *self {
                Matrix::Model => "uModel"@,
                Matrix::View => "uView"@,
                Matrix::Projection => "uProjection"@,
            },
    {
        match self {
            Matrix::Model => "uModel",
            Matrix::View => "uView",
            Matrix::Projection => "uProjection",
        }
    }
}

impl WindowSize {
    #[verifier::type_invariant]
    spec fn sides_supported(self) -> bool {
        size_supported(self.width, self.height)
    }

    /// Width in pixels.
    pub closed spec fn spec_width(&self) -> u32 {
        self.width
    }

    /// Height in pixels.
    pub closed spec fn spec_height(&self) -> u32 {
        self.height
    }

    /// A window size of `width` by `height` pixels, if such a window is
    /// supported.
    pub fn new(width: u32, height: u32) -> (size: Option<WindowSize>)
        ensures
            size.is_some() == size_supported(width, height),
            size matches Some(s) ==> s.width() == width && s.height() == height,
    {
        if 1 <= width && width <= i32::MAX as u32 && 1 <= height && height <= i32::MAX as u32 {
            Some(WindowSize { width, height })
        } else {
            None
        }
    }

    /// Width in pixels.
    #[verifier::when_used_as_spec(spec_width)]
    pub fn width(&self) -> (width: u32)
        ensures
            width == self.width(),
            size_supported(self.width(), self.height()),
    {
        proof {
            use_type_invariant(self);
        }
        self.width
    }

    /// Height in pixels.
    #[verifier::when_used_as_spec(spec_height)]
    pub fn height(&self) -> (height: u32)
        ensures
            height == self.height(),
            size_supported(self.width(), self.height()),
    {
        proof {
            use_type_invariant(self);
        }
        self.height
    }

    /// The call that sets the viewport to the whole window.
    pub fn viewport(&self) -> (call: GlCall)
        ensures
            call == full_viewport(self.width(), self.height()),
    {
        proof {
            use_type_invariant(self);
        }
        GlCall::Viewport { x: 0, y: 0, width: self.width as i32, height: self.height as i32 }
    }
}

/// The calls that draw one frame, to be carried out in order before the
/// frame is presented.
pub fn frame_calls(
    size: &WindowSize,
    shader: &Shader,
    locations: &UniformLocations,
    vertex: &Vertex,
) -> (calls: Vec<GlCall>)
    ensures
        calls@ == frame_call_seq(
            size.width(),
            size.height(),
            shader.id(),
            *locations,
            vertex.vao(),
            vertex.vertex_num(),
        ),
{
    let mut calls: Vec<GlCall> = Vec::new();
    calls.push(size.viewport());
    calls.push(GlCall::ClearColor { red: 255, green: 255, blue: 255, alpha: 255 });
    calls.push(GlCall::ClearColorBuffer);
    calls.push(shader.use_program());
    if let Some(call) = shader.set_mat4(Matrix::Model, locations.model) {
        calls.push(call);
    }
    if let Some(call) = shader.set_mat4(Matrix::View, locations.view) {
        calls.push(call);
    }
    if let Some(call) = shader.set_mat4(Matrix::Projection, locations.projection) {
        calls.push(call);
    }
    let mut drawing = vertex.draw();
    calls.append(&mut drawing);
    proof {
        assert(calls@ =~= frame_call_seq(
            size.width(),
            size.height(),
            shader.id(),
            *locations,
            vertex.vao(),
            vertex.vertex_num(),
        ));
    }
    calls
}

/// Decides the turn that follows a poll cycle, `state` being the loop after
/// the events of that cycle.
///
/// A running loop draws one frame and pauses for the frame interval; a
/// stopped loop leaves, and draws nothing.
pub fn next_turn(
    state: FrameLoop,
    size: &WindowSize,
    shader: &Shader,
    locations: &UniformLocations,
    vertex: &Vertex,
) -> (turn: Turn)
    ensures
        match turn {
            Turn::Frame { calls, pause_nanos } => {
                &&& state == FrameLoop::Running
                &&& calls@ == frame_call_seq(
                    size.width(),
                    size.height(),
                    shader.id(),
                    *locations,
                    vertex.vao(),
                    vertex.vertex_num(),
                )
                &&& pause_nanos == FRAME_INTERVAL_NANOS
            },
            Turn::Leave => state == FrameLoop::Stopped,
        },
{
    match state {
        FrameLoop::Running => Turn::Frame {
            calls: frame_calls(size, shader, locations, vertex),
            pause_nanos: FRAME_INTERVAL_NANOS,
        },
        FrameLoop::Stopped => Turn::Leave,
    }
}

} // verus!
