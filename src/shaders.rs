use vstd::prelude::*;
use vstd::slice::slice_to_vec;
use vstd::string::StringSliceAdditionalSpecFns;

use crate::driver::GlCommand;

verus! {

/// `b` holds no nul byte.
pub open spec fn nul_free(b: Seq<u8>) -> bool {
    forall|i: int| 0 <= i < b.len() ==> b[i] != 0
}

/// The text carried by `b`: all of it but a final nul, if it ends in one.
pub open spec fn text_part(b: Seq<u8>) -> Seq<u8> {
    if b.len() > 0 && b.last() == 0 {
        b.drop_last()
    } else {
        b
    }
}

/// `b` is text followed by exactly one nul, the form a shader compiler reads.
pub open spec fn is_terminated(b: Seq<u8>) -> bool {
    &&& b.len() > 0
    &&& b.last() == 0
    &&& nul_free(b.drop_last())
}

/// `i` is the position of the first nul byte of `b`.
pub open spec fn first_nul(b: Seq<u8>, i: int) -> bool {
    &&& 0 <= i < b.len()
    &&& b[i] == 0
    &&& nul_free(b.take(i))
}

/// Why a shader source could not be made.
#[derive(Clone, Debug, PartialEq, Eq)]
pub enum ShaderSourceError {
    /// The source file could not be read.
    Io { message: String },
    /// The text holds a nul byte before its end, at `position`.
    InteriorNul { position: usize },
}

/// Shader text ending in exactly one nul byte.
#[derive(Debug, PartialEq, Eq)]
pub struct ShaderSource {
    bytes: Vec<u8>,
}

impl View for ShaderSource {
    type V = Seq<u8>;

    closed spec fn view(&self) -> Seq<u8> {
        self.bytes@
    }
}

impl ShaderSource {
    #[verifier::type_invariant]
    spec fn well_formed(self) -> bool {
        is_terminated(self.bytes@)
    }

    /// Makes a source of `bytes`, which may already end in its nul. Fails
    /// exactly when the text holds a nul before that end.
    pub fn from_bytes(bytes: Vec<u8>) -> (r: Result<ShaderSource, ShaderSourceError>)
        ensures
            r is Ok <==> nul_free(text_part(bytes@)),
            r matches Ok(s) ==> s@ == text_part(bytes@).push(0) && is_terminated(s@),
            r matches Err(e) ==> e matches ShaderSourceError::InteriorNul { position }
                && first_nul(text_part(bytes@), position as int),
    {
        let ghost input = bytes@;
        let n = bytes.len();
        let text_len: usize = if n > 0 && bytes[n - 1] == 0 {
            n - 1
        } else {
            n
        };
        let mut i: usize = 0;
        while i < text_len
            invariant
                i <= text_len,
                text_len as int == text_part(bytes@).len(),
                text_part(bytes@) == bytes@.take(text_len as int),
                nul_free(bytes@.take(i as int)),
            decreases text_len - i,
        {
            if bytes[i] == 0 {
                assert(bytes@.take(i as int) =~= text_part(bytes@).take(i as int));
                assert(text_part(bytes@)[i as int] == 0);
                return Err(ShaderSourceError::InteriorNul { position: i });
            }
            assert(bytes@.take(i + 1) =~= bytes@.take(i as int).push(bytes@[i as int]));
            i = i + 1;
        }
        let mut terminated = bytes;
        if text_len == n {
            terminated.push(0);
        }
        assert(terminated@ =~= text_part(input).push(0));
        assert(terminated@.drop_last() =~= text_part(input));
        Ok(ShaderSource { bytes: terminated })
    }

    /// Makes a source of the UTF-8 encoding of `text`, which may already end
    /// in its nul. Fails exactly when the text holds a nul before that end.
    pub fn from_text(text: &str) -> (r: Result<ShaderSource, ShaderSourceError>)
        ensures
            r is Ok <==> nul_free(text_part(text.spec_bytes())),
            r matches Ok(s) ==> s@ == text_part(text.spec_bytes()).push(0) && is_terminated(s@),
            r matches Err(e) ==> e matches ShaderSourceError::InteriorNul { position }
                && first_nul(text_part(text.spec_bytes()), position as int),
    {
        ShaderSource::from_bytes(slice_to_vec(text.as_bytes()))
    }

    /// The bytes of the source, its final nul included.
    pub fn as_bytes(&self) -> (r: &[u8])
        ensures
            r@ == self@,
            is_terminated(r@),
    {
        proof {
            use_type_invariant(self);
        }
        self.bytes.as_slice()
    }
}

/// The pipeline stage a shader belongs to.
#[derive(Clone, Copy, Debug, PartialEq, Eq, Structural)]
pub enum ShaderStage {
    Vertex,
    Fragment,
}

/// Why a shader program could not be built. Each driver failure carries the
/// driver's info log.
#[derive(Clone, Debug, PartialEq, Eq)]
pub enum ShaderError {
    /// The driver gave no object (name 0) for the program or one of its shaders.
    CreateFailed,
    /// The shader of `stage` did not compile.
    Compile { stage: ShaderStage, log: String },
    /// The program did not link.
    Link { log: String },
    /// The program did not validate.
    Validate { log: String },
}

/// A linked shader program.
#[derive(Debug, PartialEq, Eq, Structural)]
pub struct Shader2D {
    /// The driver's name of the program.
    pub id: u32,
    /// Whether the program is the active one.
    pub is_bound: bool,
}

/// The report a program build waits for next.
#[derive(Clone, Copy, Debug, PartialEq, Eq, Structural)]
pub enum BuildStep {
    /// The compile status of the vertex shader.
    CompileVertex,
    /// The compile status of the fragment shader.
    CompileFragment,
    /// The link status of the program.
    Link,
    /// The validate status of the program.
    Validate,
    /// None: the build is over.
    Finished,
}

/// The status the driver must be asked for once a step's commands are done.
#[derive(Clone, Copy, Debug, PartialEq, Eq, Structural)]
pub enum StatusQuery {
    CompileStatus { shader: u32 },
    LinkStatus { program: u32 },
    ValidateStatus { program: u32 },
}

/// What the caller of a program build does next.
#[derive(Debug, PartialEq, Eq)]
pub enum BuildAction {
    /// Perform `commands`, then report the answer to `query`.
    Run { commands: Vec<GlCommand>, query: StatusQuery },
    /// Perform `commands`; `shader` is then linked, validated and active.
    Ready { shader: Shader2D, commands: Vec<GlCommand> },
    /// Perform `commands`, which release every object of the build, and give up.
    Failed { error: ShaderError, commands: Vec<GlCommand> },
}

/// The step that follows `step` on a report that is `ok` or not.
pub open spec fn next_step(step: BuildStep, ok: bool) -> BuildStep {
    if !ok {
        BuildStep::Finished
    } else {
        match step {
            BuildStep::CompileVertex => BuildStep::CompileFragment,
            BuildStep::CompileFragment => BuildStep::Link,
            BuildStep::Link => BuildStep::Validate,
            _ => BuildStep::Finished,
        }
    }
}

/// The step a build has reached after the reports `oks`, given in order.
pub open spec fn step_after(oks: Seq<bool>) -> BuildStep
    decreases oks.len(),
{
    if oks.len() == 0 {
        BuildStep::CompileVertex
    } else {
        next_step(step_after(oks.drop_last()), oks.last())
    }
}

/// The last of the reports `oks` completes the build with a usable program.
pub open spec fn yields_program(oks: Seq<bool>) -> bool {
    &&& oks.len() > 0
    &&& step_after(oks.drop_last()) == BuildStep::Validate
    &&& oks.last()
}

/// A build yields a program only when both shaders compiled, the program
/// linked and it validated: a failed compile report can never be followed
/// by a usable program.
pub proof fn lemma_program_needs_every_step(oks: Seq<bool>)
    requires
        yields_program(oks),
    ensures
        oks =~= seq![true, true, true, true],
{
    let k: int = oks.len() - 1;
    assert(step_after(oks.take(k)) == BuildStep::Validate) by {
        assert(oks.take(k) =~= oks.drop_last());
    }
    lemma_step_counts_reports(oks.take(k));
    assert(oks.take(k) =~= seq![true, true, true]);
}

/// The steps before `Finished` are reached only by reports that were all
/// `ok`, one per step.
proof fn lemma_step_counts_reports(oks: Seq<bool>)
    requires
        step_after(oks) != BuildStep::Finished,
    ensures
        forall|i: int| 0 <= i < oks.len() ==> oks[i],
        step_after(oks) == BuildStep::CompileVertex ==> oks.len() == 0,
        step_after(oks) == BuildStep::CompileFragment ==> oks.len() == 1,
        step_after(oks) == BuildStep::Link ==> oks.len() == 2,
        step_after(oks) == BuildStep::Validate ==> oks.len() == 3,
    decreases oks.len(),
{
    if oks.len() > 0 {
        let rest = oks.drop_last();
        assert(step_after(rest) != BuildStep::Finished);
        lemma_step_counts_reports(rest);
        assert forall|i: int| 0 <= i < oks.len() implies oks[i] by {
            if i < rest.len() {
                assert(oks[i] == rest[i]);
            }
        }
    }
}

/// The commands that release whichever of the three objects exist.
pub open spec fn release_objects(program: u32, vertex_shader: u32, fragment_shader: u32) -> Seq<
    GlCommand,
> {
    (if vertex_shader != 0 {
        seq![GlCommand::DeleteShader { shader: vertex_shader }]
    } else {
        seq![]
    }) + (if fragment_shader != 0 {
        seq![GlCommand::DeleteShader { shader: fragment_shader }]
    } else {
        seq![]
    }) + (if program != 0 {
        seq![GlCommand::DeleteProgram { program }]
    } else {
        seq![]
    })
}

/// `r` gives up with `error` after releasing every object of the build.
pub open spec fn fails_with(r: BuildAction, error: ShaderError, cleanup: Seq<GlCommand>) -> bool {
    r matches BuildAction::Failed { error: e, commands } && e == error && commands@ == cleanup
}

/// `r` asks for `commands`, then for the answer to `query`.
pub open spec fn runs(r: BuildAction, commands: Seq<GlCommand>, query: StatusQuery) -> bool {
    r matches BuildAction::Run { commands: c, query: q } && c@ == commands && q == query
}

fn release_commands(program: u32, vertex_shader: u32, fragment_shader: u32) -> (r: Vec<GlCommand>)
    ensures
        r@ == release_objects(program, vertex_shader, fragment_shader),
{
    let mut r: Vec<GlCommand> = Vec::new();
    if vertex_shader != 0 {
        r.push(GlCommand::DeleteShader { shader: vertex_shader });
    }
    if fragment_shader != 0 {
        r.push(GlCommand::DeleteShader { shader: fragment_shader });
    }
    if program != 0 {
        r.push(GlCommand::DeleteProgram { program });
    }
    assert(r@ =~= release_objects(program, vertex_shader, fragment_shader));
    r
}

/// The building of a shader program from a vertex and a fragment source:
/// compile each source, attach both shaders, link, validate, then release
/// the shaders and make the program active. The driver's answer after each
/// step decides the next one; any failure releases every object and ends
/// the build with an error.
pub struct ProgramBuild {
    program: u32,
    vertex_shader: u32,
    fragment_shader: u32,
    step: BuildStep,
    fragment: Option<ShaderSource>,
}

impl ProgramBuild {
    /// The driver's name of the program.
    pub closed spec fn program(self) -> u32 {
        self.program
    }

    /// The driver's name of the vertex shader.
    pub closed spec fn vertex_shader(self) -> u32 {
        self.vertex_shader
    }

    /// The driver's name of the fragment shader.
    pub closed spec fn fragment_shader(self) -> u32 {
        self.fragment_shader
    }

    /// The report the build waits for.
    pub closed spec fn spec_step(self) -> BuildStep {
        self.step
    }

    /// The fragment source, until it is handed to the compiler.
    pub closed spec fn pending_fragment(self) -> Option<ShaderSource> {
        self.fragment
    }

    /// The objects of an unfinished build exist, and the fragment source is
    /// held exactly until it is compiled.
    pub closed spec fn wf(self) -> bool {
        &&& self.step != BuildStep::Finished ==> {
            &&& self.program != 0
            &&& self.vertex_shader != 0
            &&& self.fragment_shader != 0
        }
        &&& (self.fragment is Some <==> self.step == BuildStep::CompileVertex)
    }

    /// Starts a build on the objects that the driver created: `program` and
    /// the two shaders, of the stage each name says. Fails at once when the
    /// driver gave no object for one of them; otherwise the vertex source is
    /// compiled first.
    pub fn new(
        fragment: ShaderSource,
        vertex: ShaderSource,
        program: u32,
        vertex_shader: u32,
        fragment_shader: u32,
    ) -> (r: (ProgramBuild, BuildAction))
        ensures
            r.0.wf(),
            r.0.program() == program,
            r.0.vertex_shader() == vertex_shader,
            r.0.fragment_shader() == fragment_shader,
            program == 0 || vertex_shader == 0 || fragment_shader == 0 ==> {
                &&& r.0.spec_step() == BuildStep::Finished
                &&& fails_with(
                    r.1,
                    ShaderError::CreateFailed,
                    release_objects(program, vertex_shader, fragment_shader),
                )
            },
            program != 0 && vertex_shader != 0 && fragment_shader != 0 ==> {
                &&& r.0.spec_step() == BuildStep::CompileVertex
                &&& r.0.pending_fragment() == Some(fragment)
                &&& runs(
                    r.1,
                    seq![GlCommand::CompileShader { shader: vertex_shader, source: vertex }],
                    StatusQuery::CompileStatus { shader: vertex_shader },
                )
            },
    {
        if program == 0 || vertex_shader == 0 || fragment_shader == 0 {
            let build = ProgramBuild {
                program,
                vertex_shader,
                fragment_shader,
                step: BuildStep::Finished,
                fragment: None,
            };
            let commands = release_commands(program, vertex_shader, fragment_shader);
            return (build, BuildAction::Failed { error: ShaderError::CreateFailed, commands });
        }
        let build = ProgramBuild {
            program,
            vertex_shader,
            fragment_shader,
            step: BuildStep::CompileVertex,
            fragment: Some(fragment),
        };
        let mut commands: Vec<GlCommand> = Vec::new();
        commands.push(GlCommand::CompileShader { shader: vertex_shader, source: vertex });
        assert(commands@ =~= seq![GlCommand::CompileShader { shader: vertex_shader, source: vertex }]);
        (build, BuildAction::Run { commands, query: StatusQuery::CompileStatus { shader: vertex_shader } })
    }

    /// The report the build waits for.
    pub fn step(&self) -> (r: BuildStep)
        ensures
            r == self.spec_step(),
    {
        self.step
    }

    /// Takes the driver's answer to the last query: whether it reported
    /// success, and its info log. Decides the next action.
    pub fn advance(&mut self, ok: bool, log: String) -> (r: BuildAction)
        requires
            old(self).wf(),
            old(self).spec_step() != BuildStep::Finished,
        ensures
            final(self).wf(),
            final(self).spec_step() == next_step(old(self).spec_step(), ok),
            final(self).program() == old(self).program(),
            final(self).vertex_shader() == old(self).vertex_shader(),
            final(self).fragment_shader() == old(self).fragment_shader(),
            ({
                let p = old(self).program();
                let vs = old(self).vertex_shader();
                let fs = old(self).fragment_shader();
                let cleanup = release_objects(p, vs, fs);
                match old(self).spec_step() {
                    BuildStep::CompileVertex => if ok {
                        runs(
                            r,
                            seq![
                                GlCommand::CompileShader {
                                    shader: fs,
                                    source: old(self).pending_fragment()->Some_0,
                                },
                            ],
                            StatusQuery::CompileStatus { shader: fs },
                        )
                    } else {
                        fails_with(
                            r,
                            ShaderError::Compile { stage: ShaderStage::Vertex, log },
                            cleanup,
                        )
                    },
                    BuildStep::CompileFragment => if ok {
                        runs(
                            r,
                            seq![
                                GlCommand::AttachShader { program: p, shader: vs },
                                GlCommand::AttachShader { program: p, shader: fs },
                                GlCommand::LinkProgram { program: p },
                            ],
                            StatusQuery::LinkStatus { program: p },
                        )
                    } else {
                        fails_with(
                            r,
                            ShaderError::Compile { stage: ShaderStage::Fragment, log },
                            cleanup,
                        )
                    },
                    BuildStep::Link => if ok {
                        runs(
                            r,
                            seq![GlCommand::ValidateProgram { program: p }],
                            StatusQuery::ValidateStatus { program: p },
                        )
                    } else {
                        fails_with(r, ShaderError::Link { log }, cleanup)
                    },
                    _ => if ok {
                        r matches BuildAction::Ready { shader, commands } && shader == (Shader2D {
                            id: p,
                            is_bound: true,
                        }) && p != 0 && commands@ == seq![
                            GlCommand::DeleteShader { shader: vs },
                            GlCommand::DeleteShader { shader: fs },
                            GlCommand::UseProgram { program: p },
                        ]
                    } else {
                        fails_with(r, ShaderError::Validate { log }, cleanup)
                    },
                }
            }),
    {
        let p = self.program;
        let vs = self.vertex_shader;
        let fs = self.fragment_shader;
        let step = self.step;
        if !ok {
            let error = match step {
                BuildStep::CompileVertex => ShaderError::Compile { stage: ShaderStage::Vertex, log },
                BuildStep::CompileFragment => ShaderError::Compile {
                    stage: ShaderStage::Fragment,
                    log,
                },
                BuildStep::Link => ShaderError::Link { log },
                _ => ShaderError::Validate { log },
            };
            self.step = BuildStep::Finished;
            self.fragment = None;
            return BuildAction::Failed { error, commands: release_commands(p, vs, fs) };
        }
        let mut commands: Vec<GlCommand> = Vec::new();
        match step {
            BuildStep::CompileVertex => {
                let fragment = self.fragment.take();
                match fragment {
                    Some(source) => {
                        commands.push(GlCommand::CompileShader { shader: fs, source });
                    },
                    None => {},
                }
                self.step = BuildStep::CompileFragment;
                assert(commands@ =~= seq![
                    GlCommand::CompileShader {
                        shader: fs,
                        source: old(self).pending_fragment()->Some_0,
                    },
                ]);
                BuildAction::Run { commands, query: StatusQuery::CompileStatus { shader: fs } }
            },
            BuildStep::CompileFragment => {
                commands.push(GlCommand::AttachShader { program: p, shader: vs });
                commands.push(GlCommand::AttachShader { program: p, shader: fs });
                commands.push(GlCommand::LinkProgram { program: p });
                self.step = BuildStep::Link;
                assert(commands@ =~= seq![
                    GlCommand::AttachShader { program: p, shader: vs },
                    GlCommand::AttachShader { program: p, shader: fs },
                    GlCommand::LinkProgram { program: p },
                ]);
                BuildAction::Run { commands, query: StatusQuery::LinkStatus { program: p } }
            },
            BuildStep::Link => {
                commands.push(GlCommand::ValidateProgram { program: p });
                self.step = BuildStep::Validate;
                assert(commands@ =~= seq![GlCommand::ValidateProgram { program: p }]);
                BuildAction::Run { commands, query: StatusQuery::ValidateStatus { program: p } }
            },
            _ => {
                commands.push(GlCommand::DeleteShader { shader: vs });
                commands.push(GlCommand::DeleteShader { shader: fs });
                commands.push(GlCommand::UseProgram { program: p });
                self.step = BuildStep::Finished;
                assert(commands@ =~= seq![
                    GlCommand::DeleteShader { shader: vs },
                    GlCommand::DeleteShader { shader: fs },
                    GlCommand::UseProgram { program: p },
                ]);
                BuildAction::Ready { shader: Shader2D { id: p, is_bound: true }, commands }
            },
        }
    }
}

impl Shader2D {
    /// Makes the program active. Does nothing, and asks nothing of the
    /// driver, when it already is.
    pub fn bind(&mut self) -> (r: Vec<GlCommand>)
        ensures
            final(self).id == old(self).id,
            final(self).is_bound,
            old(self).is_bound ==> r@ == Seq::<GlCommand>::empty(),
            !old(self).is_bound ==> r@ == seq![GlCommand::UseProgram { program: old(self).id }],
    {
        let mut r: Vec<GlCommand> = Vec::new();
        if !self.is_bound {
            r.push(GlCommand::UseProgram { program: self.id });
            self.is_bound = true;
        }
        assert(old(self).is_bound ==> r@ =~= Seq::<GlCommand>::empty());
        assert(!old(self).is_bound ==> r@ =~= seq![GlCommand::UseProgram { program: old(self).id }]);
        r
    }

    /// Ends the program's life: the commands release it.
    pub fn release(self) -> (r: Vec<GlCommand>)
        ensures
            r@ == seq![GlCommand::DeleteProgram { program: self.id }],
    {
        let mut r: Vec<GlCommand> = Vec::new();
        r.push(GlCommand::DeleteProgram { program: self.id });
        assert(r@ =~= seq![GlCommand::DeleteProgram { program: self.id }]);
        r
    }
}

} // verus!
