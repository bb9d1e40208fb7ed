//! The shader program: how it is built, step by step, and the calls that use
//! it.

use vstd::prelude::*;
use crate::failure::{FailureKind, SetupFailure};
use crate::gl_call::{GlCall, Matrix};

verus! {

/// A programmable stage of the pipeline.
#[derive(Clone, Copy, Debug, PartialEq, Eq)]
pub enum Stage {
    Vertex,
    Fragment,
}

/// A linked shader program.
///
/// One comes out of a build whose link step succeeded, and nowhere else;
/// nothing changes its handle afterwards.
#[derive(Debug, PartialEq, Eq)]
pub struct Shader {
    id: u32,
}

/// A shader build in progress. Each unfinished state names the step that is
/// due next; the caller carries that step out and reports how it went.
#[derive(Debug, PartialEq, Eq)]
pub enum ShaderBuild {
    /// Due: read the source of the vertex stage.
    ReadVertexSource,
    /// Due: read the source of the fragment stage.
    ReadFragmentSource,
    /// Due: compile the vertex stage.
    CompileVertex,
    /// Due: compile the fragment stage. `vertex` is the compiled vertex
    /// stage.
    CompileFragment { vertex: u32 },
    /// Due: link the two compiled stages into a program.
    Link { vertex: u32, fragment: u32 },
    /// Finished: the program is linked.
    Linked { shader: Shader },
    /// Finished: a step failed.
    Failed { failure: SetupFailure },
}

impl Shader {
    /// The shader that wraps the program `id`.
    pub closed spec fn with_id(id: u32) -> Shader {
        Shader { id }
    }

    /// Handle of the program.
    pub closed spec fn spec_id(&self) -> u32 {
        self.id
    }

    /// Handle of the program.
    #[verifier::when_used_as_spec(spec_id)]
    pub fn id(&self) -> (id: u32)
        ensures
            id == self.id(),
    {
        self.id
    }

    /// The call that makes this program the current one.
    pub fn use_program(&self) -> (call: GlCall)
        ensures
            call == (GlCall::UseProgram { program: self.id() }),
    {
        GlCall::UseProgram { program: self.id }
    }

    /// The call that uploads the transform `matrix` to the uniform found at
    /// `location`, this program being the current one.
    ///
    /// A negative `location` is what the lookup of a name gives that the
    /// program does not have. There is then nothing to upload to, and the
    /// result is `None`.
    pub fn set_mat4(&self, matrix: Matrix, location: i32) -> (call: Option<GlCall>)
        ensures
            call == upload_call(matrix, location),
    {
        if location >= 0 {
            Some(GlCall::UniformMatrix4 { location, matrix })
        } else {
            None
        }
    }

    /// Gives the program up: the call that deletes it. The shader is gone
    /// with this, so nothing can use the handle afterwards.
    pub fn release(self) -> (call: GlCall)
        ensures
            call == (GlCall::DeleteProgram { program: self.id() }),
    {
        GlCall::DeleteProgram { program: self.id }
    }
}

/// The upload of `matrix` to `location`, if there is such a location.
pub open spec fn upload_call(matrix: Matrix, location: i32) -> Option<GlCall> {
    if location >= 0 {
        Some(GlCall::UniformMatrix4 { location, matrix })
    } else {
        None
    }
}

/// A shader wraps exactly the program it was made for.
pub proof fn lemma_shader_id(id: u32)
    ensures
        Shader::with_id(id).id() == id,
{
}

impl ShaderBuild {
    /// Whether the build has come to its end, well or badly.
    pub open spec fn is_finished(self) -> bool {
        self is Linked || self is Failed
    }

    /// What a failure of the step that is due amounts to.
    pub open spec fn failure_kind(self) -> FailureKind
        recommends
            !self.is_finished(),
    {
        match self {
            ShaderBuild::ReadVertexSource => FailureKind::ShaderSource { stage: Stage::Vertex },
            ShaderBuild::ReadFragmentSource => FailureKind::ShaderSource { stage: Stage::Fragment },
            ShaderBuild::CompileVertex => FailureKind::ShaderCompile { stage: Stage::Vertex },
            ShaderBuild::CompileFragment { .. } => FailureKind::ShaderCompile {
                stage: Stage::Fragment,
            },
            _ => FailureKind::ShaderLink,
        }
    }

    /// The build after the step that was due has been reported.
    ///
    /// `Ok` carries the handle of the object the step produced (a compiled
    /// stage, the linked program; reading produces none, and the value is
    /// passed over). `Err` carries the reason or the log. A finished build
    /// takes no more reports and stays as it is.
    pub open spec fn next(self, outcome: Result<u32, String>) -> ShaderBuild {
        if self.is_finished() {
            self
        } else {
            match outcome {
                Err(log) => ShaderBuild::Failed {
                    failure: SetupFailure { kind: self.failure_kind(), message: log },
                },
                Ok(handle) => match self {
                    ShaderBuild::ReadVertexSource => ShaderBuild::ReadFragmentSource,
                    ShaderBuild::ReadFragmentSource => ShaderBuild::CompileVertex,
                    ShaderBuild::CompileVertex => ShaderBuild::CompileFragment { vertex: handle },
                    ShaderBuild::CompileFragment { vertex } => ShaderBuild::Link {
                        vertex,
                        fragment: handle,
                    },
                    _ => ShaderBuild::Linked { shader: Shader::with_id(handle) },
                },
            }
        }
    }

    /// The build after a run of reports, taken in order.
    pub open spec fn after_all(self, outcomes: Seq<Result<u32, String>>) -> ShaderBuild
        decreases outcomes.len(),
    {
        if outcomes.len() == 0 {
            self
        } else {
            self.next(outcomes.first()).after_all(outcomes.drop_first())
        }
    }

    /// Number of steps that still have to succeed before the program is
    /// linked.
    pub open spec fn steps_left(self) -> nat {
        match self {
            ShaderBuild::ReadVertexSource => 5,
            ShaderBuild::ReadFragmentSource => 4,
            ShaderBuild::CompileVertex => 3,
            ShaderBuild::CompileFragment { .. } => 2,
            ShaderBuild::Link { .. } => 1,
            _ => 0,
        }
    }

    /// A build of which nothing has been done yet.
    pub fn start() -> (build: ShaderBuild)
        ensures
            build == ShaderBuild::ReadVertexSource,
    {
        ShaderBuild::ReadVertexSource
    }

    /// Takes the report on the step that was due and moves on.
    pub fn advance(self, outcome: Result<u32, String>) -> (next: ShaderBuild)
        ensures
            next == self.next(outcome),
    {
        match self {
            ShaderBuild::Linked { shader } => ShaderBuild::Linked { shader },
            ShaderBuild::Failed { failure } => ShaderBuild::Failed { failure },
            ShaderBuild::ReadVertexSource => match outcome {
                Ok(_) => ShaderBuild::ReadFragmentSource,
                Err(log) => ShaderBuild::Failed {
                    failure: SetupFailure {
                        kind: FailureKind::ShaderSource { stage: Stage::Vertex },
                        message: log,
                    },
                },
            },
            ShaderBuild::ReadFragmentSource => match outcome {
                Ok(_) => ShaderBuild::CompileVertex,
                Err(log) => ShaderBuild::Failed {
                    failure: SetupFailure {
                        kind: FailureKind::ShaderSource { stage: Stage::Fragment },
                        message: log,
                    },
                },
            },
            ShaderBuild::CompileVertex => match outcome {
                Ok(handle) => ShaderBuild::CompileFragment { vertex: handle },
                Err(log) => ShaderBuild::Failed {
                    failure: SetupFailure {
                        kind: FailureKind::ShaderCompile { stage: Stage::Vertex },
                        message: log,
                    },
                },
            },
            ShaderBuild::CompileFragment { vertex } => match outcome {
                Ok(handle) => ShaderBuild::Link { vertex, fragment: handle },
                Err(log) => ShaderBuild::Failed {
                    failure: SetupFailure {
                        kind: FailureKind::ShaderCompile { stage: Stage::Fragment },
                        message: log,
                    },
                },
            },
            ShaderBuild::Link { .. } => match outcome {
                Ok(handle) => ShaderBuild::Linked { shader: Shader { id: handle } },
                Err(log) => ShaderBuild::Failed {
                    failure: SetupFailure { kind: FailureKind::ShaderLink, message: log },
                },
            },
        }
    }
}

/// A step that fails ends the build, whichever step it is: the failure tells
/// which one, and carries what was reported.
pub proof fn lemma_failed_step_fails_build(build: ShaderBuild, log: String)
    requires
        !build.is_finished(),
    ensures
        build.next(Err(log)) == (ShaderBuild::Failed {
            failure: SetupFailure { kind: build.failure_kind(), message: log },
        }),
{
}

/// A stage that does not compile ends the build with a compile failure that
/// names the stage and carries the compiler's log.
pub proof fn lemma_compile_error_is_reported(build: ShaderBuild, log: String)
    requires
        build is CompileVertex || build is CompileFragment,
    ensures
        build.next(Err(log)) == (ShaderBuild::Failed {
            failure: SetupFailure {
                kind: FailureKind::ShaderCompile {
                    stage: if build is CompileVertex {
                        Stage::Vertex
                    } else {
                        Stage::Fragment
                    },
                },
                message: log,
            },
        }),
{
}

/// A finished build stays as it is, whatever is reported afterwards. In
/// particular, a failed build never comes by a program.
pub proof fn lemma_finished_is_final(build: ShaderBuild, outcomes: Seq<Result<u32, String>>)
    requires
        build.is_finished(),
    ensures
        build.after_all(outcomes) == build,
    decreases outcomes.len(),
{
    if outcomes.len() > 0 {
        lemma_finished_is_final(build, outcomes.drop_first());
    }
}

/// An unfinished build ends up linked exactly when enough reports come in
/// and each step that was still due succeeded.
pub proof fn lemma_linked_iff_every_step_succeeded(
    build: ShaderBuild,
    outcomes: Seq<Result<u32, String>>,
)
    requires
        !build.is_finished(),
    ensures
        build.after_all(outcomes) is Linked <==> (outcomes.len() >= build.steps_left()
            && forall|i: int| 0 <= i < build.steps_left() ==> (#[trigger] outcomes[i]) is Ok),
    decreases outcomes.len(),
{
    if outcomes.len() > 0 {
        let rest = outcomes.drop_first();
        let then = build.next(outcomes[0]);
        if outcomes[0] is Ok {
            if then.is_finished() {
                lemma_finished_is_final(then, rest);
            } else {
                lemma_linked_iff_every_step_succeeded(then, rest);
                let due = build.steps_left();
                if rest.len() >= then.steps_left() && (forall|i: int|
                    0 <= i < then.steps_left() ==> (#[trigger] rest[i]) is Ok) {
                    assert forall|i: int| 0 <= i < due implies (#[trigger] outcomes[i]) is Ok by {
                        if i > 0 {
                            assert(rest[i - 1] is Ok);
                        }
                    }
                }
                if outcomes.len() >= due && (forall|i: int|
                    0 <= i < due ==> (#[trigger] outcomes[i]) is Ok) {
                    assert forall|i: int| 0 <= i < then.steps_left() implies (
                    #[trigger] rest[i]) is Ok by {
                        assert(outcomes[i + 1] is Ok);
                    }
                }
            }
        } else {
            lemma_finished_is_final(then, rest);
        }
    }
}

} // verus!
