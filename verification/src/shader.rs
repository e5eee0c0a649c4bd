//! The shader-program abstraction: building, and the build's outcome.
//!
//! Turning two source strings into a linked program is a fixed sequence of
//! steps against the graphics API: compile the vertex stage, compile the
//! fragment stage, link, delete the two stage objects. The API calls
//! themselves are unsafe foreign calls and live in the unverified front end;
//! what is verified here is every decision along the way. [`ProgramBuild`]
//! is a state machine: the front end performs one step at a time and reports
//! what the API said, and the machine decides whether to go on, and with
//! which error to stop. A [`ShaderProgram`] can only be obtained from a run
//! in which every step succeeded, so holding one is proof of a fully linked
//! program.

use vstd::prelude::*;

verus! {

/// One compilable unit of a program: the vertex or the fragment stage.
#[derive(Clone, Copy, PartialEq, Eq, Structural, Debug)]
pub enum Stage {
    Vertex,
    Fragment,
}

/// Why constructing a program failed. Construction is not retried: the
/// caller decides whether to abort or to try other sources.
#[derive(Clone, PartialEq, Eq, Debug)]
pub enum ShaderError {
    /// A stage rejected its source; `log` is the compiler's diagnostic text.
    StageCompile { stage: Stage, log: String },
    /// The compiled stages would not link into one program.
    Link { log: String },
    /// A source file could not be read.
    FileRead { path: String },
}

/// What the graphics API reported of one compile or link step: the handle
/// of the object the step worked on, whether the step succeeded, and the
/// diagnostic log fetched for it.
#[derive(Clone, PartialEq, Eq, Debug)]
pub struct StageReport {
    pub id: u32,
    pub ok: bool,
    pub log: String,
}

/// Where a build stands. A build is born `CompilingVertex` and ends in one
/// of the two terminal states `Linked` or `Failed`; there is no path back.
#[derive(Clone, PartialEq, Eq, Debug)]
pub enum BuildState {
    /// Waiting for the vertex stage's compile report.
    CompilingVertex,
    /// Waiting for the fragment stage's compile report.
    CompilingFragment { vertex_id: u32 },
    /// Waiting for the link report.
    Linking { vertex_id: u32, fragment_id: u32 },
    /// Linked; the two stage objects still await deletion (safe to delete:
    /// the linked program keeps their compiled artifacts alive).
    Cleanup { vertex_id: u32, fragment_id: u32, program_id: u32 },
    /// Terminal: the program is fully linked and usable.
    Linked { program_id: u32 },
    /// Terminal: some step failed; no program handle is produced.
    Failed { error: ShaderError },
}

/// The state after the vertex stage's compile report.
pub open spec fn vertex_step(r: StageReport) -> BuildState {
    if r.ok {
        BuildState::CompilingFragment { vertex_id: r.id }
    } else {
        BuildState::Failed { error: ShaderError::StageCompile { stage: Stage::Vertex, log: r.log } }
    }
}

/// The state after the fragment stage's compile report.
pub open spec fn fragment_step(vertex_id: u32, r: StageReport) -> BuildState {
    if r.ok {
        BuildState::Linking { vertex_id, fragment_id: r.id }
    } else {
        BuildState::Failed {
            error: ShaderError::StageCompile { stage: Stage::Fragment, log: r.log },
        }
    }
}

/// The state after the link report.
pub open spec fn link_step(vertex_id: u32, fragment_id: u32, r: StageReport) -> BuildState {
    if r.ok {
        BuildState::Cleanup { vertex_id, fragment_id, program_id: r.id }
    } else {
        BuildState::Failed { error: ShaderError::Link { log: r.log } }
    }
}

/// A build in progress. The front end drives it: perform the step the state
/// asks for, report what the API said, repeat until terminal, then `finish`.
pub struct ProgramBuild {
    state: BuildState,
}

/// A handle to a fully linked program. Values of this type exist only for
/// builds in which compilation of both stages and linking all succeeded.
pub struct ShaderProgram {
    id: u32,
}

impl ShaderProgram {
    /// The program object's handle in the graphics context.
    pub closed spec fn id_spec(&self) -> u32 {
        self.id
    }

    pub fn program_id(&self) -> (r: u32)
        ensures
            r == self.id_spec(),
    {
        self.id
    }
}

impl ProgramBuild {
    pub closed spec fn state(self) -> BuildState {
        self.state
    }

    /// Start a build: the vertex stage is to be compiled first.
    pub fn new() -> (b: Self)
        ensures
            b.state() == BuildState::CompilingVertex,
    {
        ProgramBuild { state: BuildState::CompilingVertex }
    }

    /// Report how compiling the vertex stage went: on success the fragment
    /// stage is next, on failure the build ends, naming the vertex stage.
    pub fn report_vertex(&mut self, r: StageReport)
        requires
            old(self).state() is CompilingVertex,
        ensures
            final(self).state() == vertex_step(r),
    {
        if r.ok {
            self.state = BuildState::CompilingFragment { vertex_id: r.id };
        } else {
            self.state = BuildState::Failed {
                error: ShaderError::StageCompile { stage: Stage::Vertex, log: r.log },
            };
        }
    }

    /// Report how compiling the fragment stage went: on success linking is
    /// next, on failure the build ends, naming the fragment stage.
    pub fn report_fragment(&mut self, r: StageReport)
        requires
            old(self).state() is CompilingFragment,
        ensures
            final(self).state() == fragment_step(old(self).state()->CompilingFragment_vertex_id, r),
    {
        let vid: u32 = match &self.state {
            BuildState::CompilingFragment { vertex_id } => *vertex_id,
            _ => 0,
        };
        if r.ok {
            self.state = BuildState::Linking { vertex_id: vid, fragment_id: r.id };
        } else {
            self.state = BuildState::Failed {
                error: ShaderError::StageCompile { stage: Stage::Fragment, log: r.log },
            };
        }
    }

    /// Report how linking went: on success the two stage objects are to be
    /// deleted, on failure the build ends with the link log.
    pub fn report_link(&mut self, r: StageReport)
        requires
            old(self).state() is Linking,
        ensures
            final(self).state() == link_step(
                old(self).state()->Linking_vertex_id,
                old(self).state()->Linking_fragment_id,
                r,
            ),
    {
        let ids: (u32, u32) = match &self.state {
            BuildState::Linking { vertex_id, fragment_id } => (*vertex_id, *fragment_id),
            _ => (0, 0),
        };
        if r.ok {
            self.state = BuildState::Cleanup {
                vertex_id: ids.0,
                fragment_id: ids.1,
                program_id: r.id,
            };
        } else {
            self.state = BuildState::Failed { error: ShaderError::Link { log: r.log } };
        }
    }

    /// Whether the build has already ended in failure, so that no further
    /// step need be performed.
    pub fn has_failed(&self) -> (r: bool)
        ensures
            r == (self.state() is Failed),
    {
        matches!(self.state, BuildState::Failed { .. })
    }

    /// The handles of the two stage objects that await deletion.
    pub fn stage_ids(&self) -> (r: (u32, u32))
        requires
            self.state() is Cleanup,
        ensures
            r.0 == self.state()->Cleanup_vertex_id,
            r.1 == self.state()->Cleanup_fragment_id,
    {
        match &self.state {
            BuildState::Cleanup { vertex_id, fragment_id, .. } => (*vertex_id, *fragment_id),
            _ => (0, 0),
        }
    }

    /// Report that the two stage objects were deleted: the build is done.
    pub fn stages_deleted(&mut self)
        requires
            old(self).state() is Cleanup,
        ensures
            final(self).state() == (BuildState::Linked {
                program_id: old(self).state()->Cleanup_program_id,
            }),
    {
        let pid: u32 = match &self.state {
            BuildState::Cleanup { program_id, .. } => *program_id,
            _ => 0,
        };
        self.state = BuildState::Linked { program_id: pid };
    }

    /// Close a finished build: a program handle exactly when the build
    /// reached `Linked`, and the recorded error exactly when it failed.
    pub fn finish(self) -> (r: Result<ShaderProgram, ShaderError>)
        requires
            self.state() is Linked || self.state() is Failed,
        ensures
            r is Ok <==> self.state() is Linked,
            self.state() matches BuildState::Linked { program_id } ==> (r matches Ok(p)
                && p.id_spec() == program_id),
            self.state() matches BuildState::Failed { error } ==> r == Err::<
                ShaderProgram,
                ShaderError,
            >(error),
    {
        match self.state {
            BuildState::Linked { program_id } => Ok(ShaderProgram { id: program_id }),
            BuildState::Failed { error } => Err(error),
            _ => Ok(ShaderProgram { id: 0 }),
        }
    }
}

/// The sources for the file-based construction variant: both texts when both
/// reads succeeded, else the error naming the first unreadable path.
pub fn sources_from_reads(
    vs_path: String,
    vs_read: Option<String>,
    fs_path: String,
    fs_read: Option<String>,
) -> (r: Result<(String, String), ShaderError>)
    ensures
        r is Ok <==> (vs_read is Some && fs_read is Some),
        r matches Ok(p) ==> vs_read == Some(p.0) && fs_read == Some(p.1),
        vs_read is None ==> r == Err::<(String, String), ShaderError>(
            ShaderError::FileRead { path: vs_path },
        ),
        vs_read is Some && fs_read is None ==> r == Err::<(String, String), ShaderError>(
            ShaderError::FileRead { path: fs_path },
        ),
{
    match vs_read {
        None => Err(ShaderError::FileRead { path: vs_path }),
        Some(vs) => match fs_read {
            None => Err(ShaderError::FileRead { path: fs_path }),
            Some(fs) => Ok((vs, fs)),
        },
    }
}

/// The outcome a whole build must have when the graphics API answers its
/// three steps with `vertex`, `fragment` and `link`: a later step counts
/// only if every earlier one succeeded.
pub open spec fn build_outcome(
    vertex: StageReport,
    fragment: StageReport,
    link: StageReport,
) -> Result<u32, ShaderError> {
    if !vertex.ok {
        Err(ShaderError::StageCompile { stage: Stage::Vertex, log: vertex.log })
    } else if !fragment.ok {
        Err(ShaderError::StageCompile { stage: Stage::Fragment, log: fragment.log })
    } else if !link.ok {
        Err(ShaderError::Link { log: link.log })
    } else {
        Ok(link.id)
    }
}

/// The state machine's transitions composed over one whole run, stage
/// deletion included.
pub open spec fn run_build(
    vertex: StageReport,
    fragment: StageReport,
    link: StageReport,
) -> BuildState {
    match vertex_step(vertex) {
        BuildState::CompilingFragment { vertex_id } => match fragment_step(vertex_id, fragment) {
            BuildState::Linking { vertex_id, fragment_id } => match link_step(
                vertex_id,
                fragment_id,
                link,
            ) {
                BuildState::Cleanup { program_id, .. } => BuildState::Linked { program_id },
                other => other,
            },
            other => other,
        },
        other => other,
    }
}

/// When every step succeeds, the machine ends `Linked` with the handle the
/// link step produced, and the outcome is that usable program.
pub proof fn lemma_build_success(vertex: StageReport, fragment: StageReport, link: StageReport)
    requires
        vertex.ok,
        fragment.ok,
        link.ok,
    ensures
        run_build(vertex, fragment, link) == (BuildState::Linked { program_id: link.id }),
        build_outcome(vertex, fragment, link) == Ok::<u32, ShaderError>(link.id),
{
}

/// A failing step is never passed over: whichever step fails first ends the
/// run `Failed`, with the error naming exactly that step, and no program
/// handle is produced.
pub proof fn lemma_failure_identifies_stage(
    vertex: StageReport,
    fragment: StageReport,
    link: StageReport,
)
    requires
        !vertex.ok || !fragment.ok || !link.ok,
    ensures
        run_build(vertex, fragment, link) is Failed,
        !vertex.ok ==> run_build(vertex, fragment, link) == (BuildState::Failed {
            error: ShaderError::StageCompile { stage: Stage::Vertex, log: vertex.log },
        }),
        vertex.ok && !fragment.ok ==> run_build(vertex, fragment, link) == (BuildState::Failed {
            error: ShaderError::StageCompile { stage: Stage::Fragment, log: fragment.log },
        }),
        vertex.ok && fragment.ok && !link.ok ==> run_build(vertex, fragment, link)
            == (BuildState::Failed { error: ShaderError::Link { log: link.log } }),
{
}

/// The machine and the outcome agree on every run: `Linked` exactly for
/// `Ok` of the same handle, `Failed` exactly for `Err` of the same error.
pub proof fn lemma_run_matches_outcome(
    vertex: StageReport,
    fragment: StageReport,
    link: StageReport,
)
    ensures
        build_outcome(vertex, fragment, link) matches Ok(id) ==> run_build(vertex, fragment, link)
            == (BuildState::Linked { program_id: id }),
        build_outcome(vertex, fragment, link) matches Err(e) ==> run_build(vertex, fragment, link)
            == (BuildState::Failed { error: e }),
{
}

} // verus!
