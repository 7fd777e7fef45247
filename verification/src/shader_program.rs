//! Staged shader program assembly.
//!
//! A program is assembled in a fixed stage order — vertex, optionally
//! geometry, fragment — enforced by a typestate builder: `build` exists
//! only on builders whose vertex and fragment slots are filled, so a
//! missing required stage is unrepresentable before any compilation
//! starts. `build` yields a [`CompileJob`], and a [`ProgramAssembly`]
//! consumes the per-stage compile and link outcomes, stopping at the first
//! failure with an error that names the failing stage, and releasing every
//! compiled stage object exactly once after a successful link.

use vstd::prelude::*;
use crate::ShaderKind;
use crate::command::GlCommand;
use crate::error::GlError;

verus! {

/// Graphics-API tag of a vertex stage.
pub const GL_VERTEX_SHADER: u32 = 0x8B31;

/// Graphics-API tag of a geometry stage.
pub const GL_GEOMETRY_SHADER: u32 = 0x8DD9;

/// Graphics-API tag of a fragment stage.
pub const GL_FRAGMENT_SHADER: u32 = 0x8B30;

impl ShaderKind {
    /// The graphics-API tag of this stage kind.
    pub open spec fn gl_tag_spec(self) -> u32 {
        match self {
            ShaderKind::Vertex => GL_VERTEX_SHADER,
            ShaderKind::Geometry => GL_GEOMETRY_SHADER,
            ShaderKind::Fragment => GL_FRAGMENT_SHADER,
        }
    }

    /// The graphics-API tag of this stage kind.
    pub fn gl_tag(&self) -> (r: u32)
        ensures
            r == self.gl_tag_spec(),
    {
        match self {
            ShaderKind::Vertex => GL_VERTEX_SHADER,
            ShaderKind::Geometry => GL_GEOMETRY_SHADER,
            ShaderKind::Fragment => GL_FRAGMENT_SHADER,
        }
    }
}

/// Whether `s` ends in the zero byte the compiler requires.
pub open spec fn is_nul_terminated(s: Seq<u8>) -> bool {
    s.len() > 0 && s[s.len() - 1] == 0
}

/// `s` with a terminating zero byte appended, unless it already ends in
/// one. The compiler consumes zero-terminated sources.
pub open spec fn nul_terminated_spec(s: Seq<u8>) -> Seq<u8> {
    if is_nul_terminated(s) {
        s
    } else {
        s.push(0)
    }
}

/// Copy `source` and zero-terminate it if needed.
fn terminate_source(source: &[u8]) -> (r: Vec<u8>)
    ensures
        r@ == nul_terminated_spec(source@),
        is_nul_terminated(r@),
{
    let mut v: Vec<u8> = Vec::new();
    let n: usize = source.len();
    let mut i: usize = 0;
    while i < n
        invariant
            i <= n,
            n == source@.len(),
            v@ == source@.subrange(0, i as int),
        decreases n - i,
    {
        v.push(source[i]);
        i += 1;
    }
    assert(v@ =~= source@);
    let needs_terminator: bool = if v.len() == 0 {
        true
    } else {
        v[v.len() - 1] != 0
    };
    if needs_terminator {
        v.push(0);
    }
    v
}

/// One stage's kind together with its zero-terminated source bytes.
/// Transient: consumed by compilation.
pub struct ShaderStageSource {
    pub kind: ShaderKind,
    pub source_code: Vec<u8>,
}

/// The ordered stages a program build compiles: vertex first, geometry in
/// the middle if present, fragment last.
pub struct CompileJob {
    pub stages: Vec<ShaderStageSource>,
}

impl CompileJob {
    /// Shape of a valid job: two or three stages in the fixed order, each
    /// zero-terminated.
    pub open spec fn wf(self) -> bool {
        &&& 2 <= self.stages@.len() <= 3
        &&& self.stages@[0].kind == ShaderKind::Vertex
        &&& self.stages@[self.stages@.len() - 1].kind == ShaderKind::Fragment
        &&& self.stages@.len() == 3 ==> self.stages@[1].kind == ShaderKind::Geometry
        &&& forall|i: int|
            0 <= i < self.stages@.len() ==> is_nul_terminated(
                #[trigger] self.stages@[i].source_code@,
            )
    }

    /// How many stages the job compiles.
    pub fn stage_count(&self) -> (r: usize)
        ensures
            r == self.stages@.len(),
    {
        self.stages.len()
    }
}

/// Marker for a builder slot whose stage has not been supplied.
pub struct MissingStage;

/// The staged builder. Each setter moves the builder to a type whose slot
/// is filled; `build` is only defined once the vertex and fragment slots
/// hold sources, so a build without a required stage does not compile.
pub struct ShaderProgramBuilder<V, G, F> {
    pub vertex_shader: V,
    pub geometry_shader: G,
    pub fragment_shader: F,
}

impl ShaderProgramBuilder<MissingStage, MissingStage, MissingStage> {
    /// Start with every slot empty.
    pub fn new() -> ShaderProgramBuilder<MissingStage, MissingStage, MissingStage> {
        ShaderProgramBuilder {
            vertex_shader: MissingStage,
            geometry_shader: MissingStage,
            fragment_shader: MissingStage,
        }
    }
}

impl<G, F> ShaderProgramBuilder<MissingStage, G, F> {
    /// Supply the vertex stage source, zero-terminating it if needed.
    pub fn vertex_shader(self, source_code: &[u8]) -> (r: ShaderProgramBuilder<Vec<u8>, G, F>)
        ensures
            r.vertex_shader@ == nul_terminated_spec(source_code@),
            is_nul_terminated(r.vertex_shader@),
            r.geometry_shader == self.geometry_shader,
            r.fragment_shader == self.fragment_shader,
    {
        ShaderProgramBuilder {
            vertex_shader: terminate_source(source_code),
            geometry_shader: self.geometry_shader,
            fragment_shader: self.fragment_shader,
        }
    }
}

impl<V, F> ShaderProgramBuilder<V, MissingStage, F> {
    /// Supply the optional geometry stage source, zero-terminating it if
    /// needed.
    pub fn geometry_shader(self, source_code: &[u8]) -> (r: ShaderProgramBuilder<V, Vec<u8>, F>)
        ensures
            r.geometry_shader@ == nul_terminated_spec(source_code@),
            is_nul_terminated(r.geometry_shader@),
            r.vertex_shader == self.vertex_shader,
            r.fragment_shader == self.fragment_shader,
    {
        ShaderProgramBuilder {
            vertex_shader: self.vertex_shader,
            geometry_shader: terminate_source(source_code),
            fragment_shader: self.fragment_shader,
        }
    }
}

impl<V, G> ShaderProgramBuilder<V, G, MissingStage> {
    /// Supply the fragment stage source, zero-terminating it if needed.
    pub fn fragment_shader(self, source_code: &[u8]) -> (r: ShaderProgramBuilder<V, G, Vec<u8>>)
        ensures
            r.fragment_shader@ == nul_terminated_spec(source_code@),
            is_nul_terminated(r.fragment_shader@),
            r.vertex_shader == self.vertex_shader,
            r.geometry_shader == self.geometry_shader,
    {
        ShaderProgramBuilder {
            vertex_shader: self.vertex_shader,
            geometry_shader: self.geometry_shader,
            fragment_shader: terminate_source(source_code),
        }
    }
}

impl ShaderProgramBuilder<Vec<u8>, MissingStage, Vec<u8>> {
    /// Order the vertex and fragment stages for compilation.
    pub fn build(self) -> (r: CompileJob)
        ensures
            r.stages@.len() == 2,
            r.stages@[0].kind == ShaderKind::Vertex,
            r.stages@[0].source_code@ == self.vertex_shader@,
            r.stages@[1].kind == ShaderKind::Fragment,
            r.stages@[1].source_code@ == self.fragment_shader@,
            is_nul_terminated(self.vertex_shader@) && is_nul_terminated(self.fragment_shader@)
                ==> r.wf(),
    {
        let mut stages: Vec<ShaderStageSource> = Vec::new();
        stages.push(ShaderStageSource { kind: ShaderKind::Vertex, source_code: self.vertex_shader });
        stages.push(
            ShaderStageSource { kind: ShaderKind::Fragment, source_code: self.fragment_shader },
        );
        CompileJob { stages }
    }
}

impl ShaderProgramBuilder<Vec<u8>, Vec<u8>, Vec<u8>> {
    /// Order the vertex, geometry and fragment stages for compilation.
    pub fn build(self) -> (r: CompileJob)
        ensures
            r.stages@.len() == 3,
            r.stages@[0].kind == ShaderKind::Vertex,
            r.stages@[0].source_code@ == self.vertex_shader@,
            r.stages@[1].kind == ShaderKind::Geometry,
            r.stages@[1].source_code@ == self.geometry_shader@,
            r.stages@[2].kind == ShaderKind::Fragment,
            r.stages@[2].source_code@ == self.fragment_shader@,
            is_nul_terminated(self.vertex_shader@) && is_nul_terminated(self.geometry_shader@)
                && is_nul_terminated(self.fragment_shader@) ==> r.wf(),
    {
        let mut stages: Vec<ShaderStageSource> = Vec::new();
        stages.push(ShaderStageSource { kind: ShaderKind::Vertex, source_code: self.vertex_shader });
        stages.push(
            ShaderStageSource { kind: ShaderKind::Geometry, source_code: self.geometry_shader },
        );
        stages.push(
            ShaderStageSource { kind: ShaderKind::Fragment, source_code: self.fragment_shader },
        );
        CompileJob { stages }
    }
}

/// A linked program: its id refers to a successfully linked program, and
/// release happens at most once.
#[derive(Debug, PartialEq, Eq, Structural)]
pub struct ShaderProgram {
    pub id: u32,
    pub released: bool,
}

impl ShaderProgram {
    /// The release step as a value-level transition.
    pub open spec fn release_spec(self) -> (ShaderProgram, Seq<GlCommand>) {
        if self.released {
            (self, Seq::empty())
        } else {
            (
                (ShaderProgram { released: true, ..self }),
                seq![(GlCommand::DeleteProgram { id: self.id })],
            )
        }
    }

    /// Select this program for subsequent draw operations.
    pub fn use_program(&self) -> (r: Vec<GlCommand>)
        requires
            !self.released,
        ensures
            r@ == seq![(GlCommand::UseProgram { id: self.id })],
    {
        let mut commands: Vec<GlCommand> = Vec::new();
        commands.push(GlCommand::UseProgram { id: self.id });
        commands
    }

    /// The linked program id.
    pub fn id(&self) -> (r: u32)
        ensures
            r == self.id,
    {
        self.id
    }

    /// Set the named boolean uniform; the program need not be the bound
    /// one, the command targets it directly. An unresolved name is a no-op
    /// target, never an error.
    pub fn set_uniform_bool(&self, name: String, value: bool) -> (r: GlCommand)
        requires
            !self.released,
        ensures
            r == (GlCommand::SetUniformI32 {
                program: self.id,
                name,
                value: if value {
                    1int as i32
                } else {
                    0int as i32
                },
            }),
    {
        GlCommand::SetUniformI32 { program: self.id, name, value: if value { 1 } else { 0 } }
    }

    /// Set the named signed-integer uniform.
    pub fn set_uniform_i32(&self, name: String, value: i32) -> (r: GlCommand)
        requires
            !self.released,
        ensures
            r == (GlCommand::SetUniformI32 { program: self.id, name, value }),
    {
        GlCommand::SetUniformI32 { program: self.id, name, value }
    }

    /// Set the named unsigned-integer uniform.
    pub fn set_uniform_u32(&self, name: String, value: u32) -> (r: GlCommand)
        requires
            !self.released,
        ensures
            r == (GlCommand::SetUniformU32 { program: self.id, name, value }),
    {
        GlCommand::SetUniformU32 { program: self.id, name, value }
    }

    /// Release the program id; a repeated call emits nothing.
    pub fn release(&mut self) -> (r: Vec<GlCommand>)
        ensures
            (*final(self), r@) == old(self).release_spec(),
    {
        if self.released {
            Vec::new()
        } else {
            self.released = true;
            let mut commands: Vec<GlCommand> = Vec::new();
            commands.push(GlCommand::DeleteProgram { id: self.id });
            commands
        }
    }
}

/// Releasing a live program frees its id exactly once.
pub proof fn lemma_program_release_exactly_once(p: ShaderProgram)
    requires
        !p.released,
    ensures
        ({
            let (p1, c1) = p.release_spec();
            let (p2, c2) = p1.release_spec();
            &&& c1 == seq![(GlCommand::DeleteProgram { id: p.id })]
            &&& c2 == Seq::<GlCommand>::empty()
            &&& p2 == p1
        }),
{
}

/// The assembly of one program from a [`CompileJob`]: stages are compiled
/// in job order, the first failure is terminal, and a successful link
/// releases every compiled stage object exactly once.
pub struct ProgramAssembly {
    pub job: CompileJob,
    pub compiled_ids: Vec<u32>,
    pub failure: Option<GlError>,
}

impl ProgramAssembly {
    /// Progress stays within the job.
    pub open spec fn wf(self) -> bool {
        &&& self.job.wf()
        &&& self.compiled_ids@.len() <= self.job.stages@.len()
    }

    /// Start assembling `job`: nothing compiled, no failure.
    pub fn begin(job: CompileJob) -> (r: ProgramAssembly)
        requires
            job.wf(),
        ensures
            r.job == job,
            r.compiled_ids@ == Seq::<u32>::empty(),
            r.failure is None,
            r.wf(),
    {
        ProgramAssembly { job, compiled_ids: Vec::new(), failure: None }
    }

    /// Whether a stage is still waiting to be compiled.
    pub fn in_progress(&self) -> (r: bool)
        ensures
            r == (self.failure is None && self.compiled_ids@.len() < self.job.stages@.len()),
    {
        self.failure.is_none() && self.compiled_ids.len() < self.job.stages.len()
    }

    /// The kind of the next stage to compile.
    pub fn next_stage_kind(&self) -> (r: ShaderKind)
        requires
            self.failure is None,
            self.compiled_ids@.len() < self.job.stages@.len(),
        ensures
            r == self.job.stages@[self.compiled_ids@.len() as int].kind,
    {
        self.job.stages[self.compiled_ids.len()].kind
    }

    /// The zero-terminated source of the next stage to compile.
    pub fn next_stage_source(&self) -> (r: &Vec<u8>)
        requires
            self.failure is None,
            self.compiled_ids@.len() < self.job.stages@.len(),
        ensures
            r@ == self.job.stages@[self.compiled_ids@.len() as int].source_code@,
    {
        &self.job.stages[self.compiled_ids.len()].source_code
    }

    /// The next stage compiled into the stage object `shader_id`.
    pub fn record_compiled(&mut self, shader_id: u32)
        requires
            old(self).failure is None,
            old(self).compiled_ids@.len() < old(self).job.stages@.len(),
        ensures
            final(self).job == old(self).job,
            final(self).failure is None,
            final(self).compiled_ids@ == old(self).compiled_ids@.push(shader_id),
    {
        self.compiled_ids.push(shader_id);
    }

    /// The next stage failed to compile with diagnostic `gl_log`: the
    /// assembly fails with an error naming exactly that stage's kind and
    /// carrying the diagnostic verbatim.
    pub fn record_compile_failure(&mut self, gl_log: String)
        requires
            old(self).failure is None,
            old(self).compiled_ids@.len() < old(self).job.stages@.len(),
        ensures
            final(self).job == old(self).job,
            final(self).compiled_ids == old(self).compiled_ids,
            final(self).failure == Some(
                GlError::ShaderCompileError {
                    shader_kind: old(self).job.stages@[old(
                        self,
                    ).compiled_ids@.len() as int].kind,
                    gl_log,
                },
            ),
    {
        let kind = self.job.stages[self.compiled_ids.len()].kind;
        self.failure = Some(GlError::ShaderCompileError { shader_kind: kind, gl_log });
    }

    /// Whether every stage compiled and linking may start.
    pub fn ready_to_link(&self) -> (r: bool)
        ensures
            r == (self.failure is None && self.compiled_ids@.len() == self.job.stages@.len()),
    {
        self.failure.is_none() && self.compiled_ids.len() == self.job.stages.len()
    }

    /// The attach-and-link command sequence for the fresh program object
    /// `program_id`: one attach per compiled stage, in compile order, then
    /// the link.
    pub fn link_commands(&self, program_id: u32) -> (r: Vec<GlCommand>)
        requires
            self.failure is None,
            self.compiled_ids@.len() == self.job.stages@.len(),
        ensures
            r@.len() == self.compiled_ids@.len() + 1,
            forall|i: int|
                0 <= i < self.compiled_ids@.len() ==> r@[i] == (GlCommand::AttachShader {
                    program: program_id,
                    shader: self.compiled_ids@[i],
                }),
            r@[self.compiled_ids@.len() as int] == (GlCommand::LinkProgram {
                program: program_id,
            }),
    {
        let mut commands: Vec<GlCommand> = Vec::new();
        let n: usize = self.compiled_ids.len();
        let mut i: usize = 0;
        while i < n
            invariant
                i <= n,
                n == self.compiled_ids@.len(),
                commands@.len() == i,
                forall|j: int|
                    0 <= j < i ==> commands@[j] == (GlCommand::AttachShader {
                        program: program_id,
                        shader: self.compiled_ids@[j],
                    }),
            decreases n - i,
        {
            commands.push(
                GlCommand::AttachShader { program: program_id, shader: self.compiled_ids[i] },
            );
            i += 1;
        }
        commands.push(GlCommand::LinkProgram { program: program_id });
        commands
    }

    /// Linking failed with diagnostic `gl_log`: the assembly fails with a
    /// link error carrying the diagnostic verbatim.
    pub fn record_link_failure(&mut self, gl_log: String)
        requires
            old(self).failure is None,
            old(self).compiled_ids@.len() == old(self).job.stages@.len(),
        ensures
            final(self).job == old(self).job,
            final(self).compiled_ids == old(self).compiled_ids,
            final(self).failure == Some(GlError::ProgramLinkingError { gl_log }),
    {
        self.failure = Some(GlError::ProgramLinkingError { gl_log });
    }

    /// Whether the assembly has failed.
    pub fn failed(&self) -> (r: bool)
        ensures
            r == (self.failure is Some),
    {
        self.failure.is_some()
    }

    /// The terminal error of a failed assembly.
    pub fn into_error(self) -> (r: GlError)
        requires
            self.failure is Some,
        ensures
            Some(r) == self.failure,
    {
        match self.failure {
            Some(e) => e,
            None => vstd::pervasive::unreached(),
        }
    }

    /// Linking succeeded into `program_id`: yield the program and release
    /// every compiled stage object, exactly once each, in compile order.
    /// The stage objects are not needed after linking.
    pub fn complete(self, program_id: u32) -> (r: (ShaderProgram, Vec<GlCommand>))
        requires
            self.failure is None,
            self.compiled_ids@.len() == self.job.stages@.len(),
        ensures
            r.0 == (ShaderProgram { id: program_id, released: false }),
            r.1@.len() == self.compiled_ids@.len(),
            forall|i: int|
                0 <= i < self.compiled_ids@.len() ==> r.1@[i] == (GlCommand::DeleteShader {
                    id: self.compiled_ids@[i],
                }),
    {
        let mut commands: Vec<GlCommand> = Vec::new();
        let n: usize = self.compiled_ids.len();
        let mut i: usize = 0;
        while i < n
            invariant
                i <= n,
                n == self.compiled_ids@.len(),
                commands@.len() == i,
                forall|j: int|
                    0 <= j < i ==> commands@[j] == (GlCommand::DeleteShader {
                        id: self.compiled_ids@[j],
                    }),
            decreases n - i,
        {
            commands.push(GlCommand::DeleteShader { id: self.compiled_ids[i] });
            i += 1;
        }
        (ShaderProgram { id: program_id, released: false }, commands)
    }
}

/// The index of the first failed compile outcome, or the sequence length
/// when every outcome succeeded.
pub open spec fn first_err(results: Seq<Result<u32, String>>) -> int
    decreases results.len(),
{
    if results.len() == 0 {
        0
    } else if results[0] is Err {
        0
    } else {
        1 + first_err(results.drop_first())
    }
}

/// `first_err` is a position within the sequence, every outcome before it
/// succeeded, and the outcome at it (if within range) failed.
pub proof fn lemma_first_err(results: Seq<Result<u32, String>>)
    ensures
        0 <= first_err(results) <= results.len(),
        forall|i: int| 0 <= i < first_err(results) ==> #[trigger] results[i] is Ok,
        first_err(results) < results.len() ==> results[first_err(results)] is Err,
    decreases results.len(),
{
    if results.len() > 0 && !(results[0] is Err) {
        lemma_first_err(results.drop_first());
        assert forall|i: int| 0 <= i < first_err(results) implies #[trigger] results[i] is Ok by {
            if i > 0 {
                assert(results.drop_first()[i - 1] is Ok);
            }
        }
        if first_err(results) < results.len() {
            assert(results.drop_first()[first_err(results) - 1] is Err);
        }
    }
}

/// Run a whole assembly from recorded outcomes: the outcome of compiling
/// each stage of `job` in order, then the outcome of linking.
///
/// The result is exact in every case:
/// - if some stage's compilation failed, the first such failure is
///   surfaced as a [`GlError::ShaderCompileError`] naming that stage's
///   kind and carrying its diagnostic — later outcomes are irrelevant;
/// - otherwise, if linking failed, its diagnostic is surfaced as a
///   [`GlError::ProgramLinkingError`];
/// - otherwise the build succeeds with the linked program and one release
///   command per compiled stage object, in compile order.
pub fn run_assembly(
    job: CompileJob,
    compile_results: Vec<Result<u32, String>>,
    link_result: Result<u32, String>,
) -> (r: Result<(ShaderProgram, Vec<GlCommand>), GlError>)
    requires
        job.wf(),
        compile_results@.len() == job.stages@.len(),
    ensures
        ({
            let n = compile_results@.len() as int;
            let k = first_err(compile_results@);
            if k < n {
                r == Err::<(ShaderProgram, Vec<GlCommand>), GlError>(
                    GlError::ShaderCompileError {
                        shader_kind: job.stages@[k].kind,
                        gl_log: compile_results@[k]->Err_0,
                    },
                )
            } else if link_result is Err {
                r == Err::<(ShaderProgram, Vec<GlCommand>), GlError>(
                    GlError::ProgramLinkingError { gl_log: link_result->Err_0 },
                )
            } else {
                &&& r matches Ok(pair)
                &&& pair.0 == (ShaderProgram { id: link_result->Ok_0, released: false })
                &&& pair.1@.len() == n
                &&& forall|i: int|
                    0 <= i < n ==> #[trigger] pair.1@[i] == (GlCommand::DeleteShader {
                        id: compile_results@[i]->Ok_0,
                    })
            }
        }),
{
    proof {
        lemma_first_err(compile_results@);
    }
    let ghost k = first_err(compile_results@);
    let mut assembly = ProgramAssembly::begin(job);
    let n: usize = compile_results.len();
    let mut i: usize = 0;
    while i < n
        invariant
            i <= n,
            n == compile_results@.len(),
            i <= k,
            assembly.job == job,
            job.wf(),
            job.stages@.len() == n,
            assembly.failure is None,
            assembly.compiled_ids@.len() == i,
            k == first_err(compile_results@),
            0 <= k <= n,
            forall|j: int| 0 <= j < k ==> #[trigger] compile_results@[j] is Ok,
            k < n ==> compile_results@[k] is Err,
            forall|j: int|
                0 <= j < i ==> #[trigger] assembly.compiled_ids@[j] == compile_results@[j]->Ok_0,
        decreases n - i,
    {
        match &compile_results[i] {
            Ok(id) => {
                proof {
                    // The matched outcome succeeded, so the first failure
                    // lies strictly beyond this stage.
                    if i == k {
                        assert(compile_results@[k] is Err);
                        assert(false);
                    }
                }
                assembly.record_compiled(*id);
            },
            Err(log) => {
                assert(i == k);
                assembly.record_compile_failure(log.clone());
                return Err(assembly.into_error());
            },
        }
        i += 1;
    }
    assert(k == n);
    match link_result {
        Err(log) => {
            assembly.record_link_failure(log);
            Err(assembly.into_error())
        },
        Ok(program_id) => Ok(assembly.complete(program_id)),
    }
}

} // verus!

