//! The construction of the graphics pipeline.
//!
//! The device and the shader compiler do the work. The construction is a state
//! machine: each step names the next piece of work, and is resumed with its
//! outcome.
use crate::scene::ONE;
use gfx_hal::pso::{
    BlendOp, BlendState, Factor, FrontFace, InputAssemblerDesc, PolygonMode, Primitive,
};
use vstd::prelude::*;

verus! {

/// The function that each shader starts in.
pub const ENTRY_POINT: &'static str = "main";

/// The file name that the compiler's messages show for a shader.
pub const SHADER_FILE_NAME: &'static str = "unnamed";

/// The file that the source of the vertex shader stands in.
pub const VERTEX_SHADER_FILE: &'static str = "shaders/triangle.vert";

/// The file that the source of the fragment shader stands in.
pub const FRAGMENT_SHADER_FILE: &'static str = "shaders/triangle.frag";

/// The mask of the faces that are seen from behind.
pub const FACE_BACK: u32 = 0x2;

/// The mask of all colour channels.
pub const COLOR_ALL: u8 = 0xf;

/// The stage that a shader is for.
#[derive(Clone, Copy, Debug, PartialEq, Eq)]
pub enum ShaderKind {
    Vertex,
    Fragment,
}

/// What a pipeline is made for, by the numbers of the render pass and of the pipeline
/// layout.
#[derive(Clone, Copy, Debug, PartialEq, Eq)]
pub struct PipelineTarget {
    pub render_pass: usize,
    pub pipeline_layout: usize,
}

/// The start of a shader.
#[derive(Clone, Copy, Debug, PartialEq, Eq)]
pub struct EntryPlan {
    /// The module of the shader: the one that was created for this kind.
    pub module: ShaderKind,
    /// The function that the shader starts in.
    pub entry: &'static str,
    /// The number of constants that the shader is specialised with.
    pub specialization_constants: usize,
}

/// How vertices are fetched and put together.
#[derive(Debug, PartialEq, Eq)]
pub struct VertexAssemblerPlan {
    /// The number of vertex buffers.
    pub buffers: usize,
    /// The number of vertex attributes.
    pub attributes: usize,
    pub input_assembler: InputAssemblerDesc,
    pub vertex: EntryPlan,
    /// Whether there are tessellation shaders.
    pub tessellation: bool,
    /// Whether there is a geometry shader.
    pub geometry: bool,
}

/// How triangles become fragments.
#[derive(Clone, Copy, Debug, PartialEq)]
pub struct RasterizerPlan {
    pub polygon_mode: PolygonMode,
    /// The mask of the faces that are not drawn.
    pub cull_face: u32,
    /// The order of the vertices of a face that is seen from the front.
    pub front_face: FrontFace,
    pub depth_clamping: bool,
    /// Whether depths are shifted.
    pub depth_bias: bool,
    pub conservative: bool,
    /// The fixed width of lines, as the bits of a floating-point value.
    pub line_width: u32,
}

/// How the pipeline writes to a colour attachment.
#[derive(Clone, Copy, Debug, PartialEq, Eq)]
pub struct ColorTarget {
    /// The channels that are written.
    pub mask: u8,
    /// How new colours are blended with those that are there, if they are.
    pub blend: Option<BlendState>,
}

/// The settings of the pipeline.
#[derive(Debug, PartialEq)]
pub struct PipelinePlan {
    pub assembler: VertexAssemblerPlan,
    pub rasterizer: RasterizerPlan,
    pub fragment: EntryPlan,
    /// The one colour attachment that is drawn to.
    pub color_target: ColorTarget,
    /// Whether colours are combined by a logic operation.
    pub logic_op: bool,
    pub depth_test: bool,
    pub depth_bounds: bool,
    pub stencil_test: bool,
    pub multisampling: bool,
    /// Whether the viewport, the scissor, the blend colour or the depth bounds are
    /// fixed with the pipeline.
    pub baked_states: bool,
    /// The render pass and the pipeline layout of the pipeline.
    pub target: PipelineTarget,
    /// The subpass of the render pass that the pipeline is for.
    pub subpass: u8,
    /// The mask of the options of the creation.
    pub flags: u32,
    /// Whether the pipeline is derived from another one.
    pub derived: bool,
    /// Whether a cache of pipelines is used.
    pub cached: bool,
}

/// The start of a shader, in its own module.
pub open spec fn main_entry(shader_kind: ShaderKind) -> EntryPlan {
    EntryPlan { module: shader_kind, entry: ENTRY_POINT, specialization_constants: 0 }
}

/// Triangles made of each three vertices, which the vertex shader finds without
/// any buffer.
pub open spec fn triangle_assembler() -> VertexAssemblerPlan {
    VertexAssemblerPlan {
        buffers: 0,
        attributes: 0,
        input_assembler: InputAssemblerDesc {
            primitive: Primitive::TriangleList,
            with_adjacency: false,
            restart_index: None,
        },
        vertex: main_entry(ShaderKind::Vertex),
        tessellation: false,
        geometry: false,
    }
}

/// Filled triangles, of which those with clockwise vertices are left out.
pub open spec fn front_filling() -> RasterizerPlan {
    RasterizerPlan {
        polygon_mode: PolygonMode::Fill,
        cull_face: FACE_BACK,
        front_face: FrontFace::CounterClockwise,
        depth_clamping: false,
        depth_bias: false,
        conservative: false,
        line_width: ONE,
    }
}

/// A new colour covers what is there by as much as its alpha value says; the alpha
/// values add up to at most one.
pub open spec fn alpha_blending() -> BlendState {
    BlendState {
        color: BlendOp::Add { src: Factor::SrcAlpha, dst: Factor::OneMinusSrcAlpha },
        alpha: BlendOp::Add { src: Factor::One, dst: Factor::OneMinusSrcAlpha },
    }
}

/// The pipeline of the program: filled triangles seen from the front, blended by
/// alpha, and nothing else.
pub open spec fn triangle_plan(target: PipelineTarget) -> PipelinePlan {
    PipelinePlan {
        assembler: triangle_assembler(),
        rasterizer: front_filling(),
        fragment: main_entry(ShaderKind::Fragment),
        color_target: ColorTarget { mask: COLOR_ALL, blend: Some(alpha_blending()) },
        logic_op: false,
        depth_test: false,
        depth_bounds: false,
        stencil_test: false,
        multisampling: false,
        baked_states: false,
        target,
        subpass: 0,
        flags: 0,
        derived: false,
        cached: false,
    }
}

/// The settings of the pipeline.
pub fn pipeline_plan(target: PipelineTarget) -> (plan: PipelinePlan)
    ensures
        plan == triangle_plan(target),
        plan.target == target,
        plan.rasterizer.polygon_mode is Fill,
        plan.rasterizer.cull_face == FACE_BACK,
        plan.rasterizer.front_face is CounterClockwise,
        plan.assembler.input_assembler.primitive is TriangleList,
{
    let vertex = EntryPlan {
        module: ShaderKind::Vertex,
        entry: ENTRY_POINT,
        specialization_constants: 0,
    };
    let fragment = EntryPlan {
        module: ShaderKind::Fragment,
        entry: ENTRY_POINT,
        specialization_constants: 0,
    };
    let assembler = VertexAssemblerPlan {
        buffers: 0,
        attributes: 0,
        input_assembler: InputAssemblerDesc::new(Primitive::TriangleList),
        vertex,
        tessellation: false,
        geometry: false,
    };
    let rasterizer = RasterizerPlan {
        polygon_mode: PolygonMode::Fill,
        cull_face: FACE_BACK,
        front_face: FrontFace::CounterClockwise,
        depth_clamping: false,
        depth_bias: false,
        conservative: false,
        line_width: ONE,
    };
    let blend = BlendState {
        color: BlendOp::Add { src: Factor::SrcAlpha, dst: Factor::OneMinusSrcAlpha },
        alpha: BlendOp::Add { src: Factor::One, dst: Factor::OneMinusSrcAlpha },
    };
    PipelinePlan {
        assembler,
        rasterizer,
        fragment,
        color_target: ColorTarget { mask: COLOR_ALL, blend: Some(blend) },
        logic_op: false,
        depth_test: false,
        depth_bounds: false,
        stencil_test: false,
        multisampling: false,
        baked_states: false,
        target,
        subpass: 0,
        flags: 0,
        derived: false,
        cached: false,
    }
}

/// Why a pipeline could not be made.
#[derive(Clone, Copy, Debug, PartialEq, Eq)]
pub enum PipelineError {
    CompileShader,
    CreateVertexModule,
    CreateFragmentModule,
    CreatePipeline,
}

impl PipelineError {
    /// The message of the error.
    pub open spec fn text(self) -> Seq<char> {
        match self {
            PipelineError::CompileShader => "Failed to compile shader"@,
            PipelineError::CreateVertexModule => "Failed to create vertex shader modile"@,
            PipelineError::CreateFragmentModule => "Failed to create fragment shader module"@,
            PipelineError::CreatePipeline => "Failed to create graphics"@,
        }
    }

    /// The message of the error.
    pub fn message(&self) -> (message: &'static str)
        ensures
            message@ == self.text(),
    {
        match self {
            PipelineError::CompileShader => "Failed to compile shader",
            PipelineError::CreateVertexModule => "Failed to create vertex shader modile",
            PipelineError::CreateFragmentModule => "Failed to create fragment shader module",
            PipelineError::CreatePipeline => "Failed to create graphics",
        }
    }
}

/// What has to be done next.
#[derive(Debug, PartialEq)]
pub enum PipelineAction {
    /// Compile the source of a shader.
    CompileShader {
        glsl: String,
        kind: ShaderKind,
        file_name: &'static str,
        entry_point: &'static str,
        /// Whether the compiler is given options.
        options: bool,
    },
    /// Create a shader module from a compiled shader.
    CreateModule { kind: ShaderKind, spirv: Vec<u32> },
    /// Create the pipeline from the two modules.
    CreatePipeline(PipelinePlan),
    /// Destroy the module of a shader.
    DestroyModule(ShaderKind),
    /// Nothing: the pipeline is ready.
    Finish,
    /// Give up.
    Abort(PipelineError),
}

/// The compilation of a shader, from its source and its kind.
pub open spec fn compilation(glsl: String, shader_kind: ShaderKind) -> PipelineAction {
    PipelineAction::CompileShader {
        glsl,
        kind: shader_kind,
        file_name: SHADER_FILE_NAME,
        entry_point: ENTRY_POINT,
        options: false,
    }
}

/// Asks for the compilation of a shader.
pub fn compile_shader(glsl: String, shader_kind: ShaderKind) -> (action: PipelineAction)
    ensures
        action == compilation(glsl, shader_kind),
{
    PipelineAction::CompileShader {
        glsl,
        kind: shader_kind,
        file_name: SHADER_FILE_NAME,
        entry_point: ENTRY_POINT,
        options: false,
    }
}

/// The outcome of what had to be done.
#[derive(Debug, PartialEq, Eq)]
pub enum PipelineReply {
    /// The compiled shader, unless the compiler failed.
    Compiled(Option<Vec<u32>>),
    /// Whether the module was created.
    ModuleCreated(bool),
    /// Whether the pipeline was created.
    PipelineCreated(bool),
    /// The module was destroyed.
    ModuleDestroyed,
}

/// How far the construction has come: what is being waited for.
#[derive(Debug, PartialEq, Eq)]
pub enum PipelineBuild {
    CompilingVertex { target: PipelineTarget, fragment_shader: String },
    CreatingVertexModule { target: PipelineTarget, fragment_shader: String },
    CompilingFragment { target: PipelineTarget },
    CreatingFragmentModule { target: PipelineTarget },
    CreatingPipeline,
    DestroyingVertexModule,
    DestroyingFragmentModule,
    Built,
    Failed,
}

impl PipelineBuild {
    /// The reply answers what is being waited for.
    pub open spec fn accepts(self, reply: PipelineReply) -> bool {
        match self {
            PipelineBuild::CompilingVertex { .. } | PipelineBuild::CompilingFragment { .. }
                => reply is Compiled,
            PipelineBuild::CreatingVertexModule { .. } => reply is ModuleCreated,
            PipelineBuild::CreatingFragmentModule { .. } => reply is ModuleCreated,
            PipelineBuild::CreatingPipeline => reply is PipelineCreated,
            PipelineBuild::DestroyingVertexModule | PipelineBuild::DestroyingFragmentModule
                => reply is ModuleDestroyed,
            PipelineBuild::Built | PipelineBuild::Failed => false,
        }
    }

    /// The reply is a failure.
    pub open spec fn fails(reply: PipelineReply) -> bool {
        match reply {
            PipelineReply::Compiled(spirv) => spirv is None,
            PipelineReply::ModuleCreated(created) => !created,
            PipelineReply::PipelineCreated(created) => !created,
            PipelineReply::ModuleDestroyed => false,
        }
    }

    /// The error that a failure means here.
    pub open spec fn error(self) -> PipelineError {
        match self {
            PipelineBuild::CreatingVertexModule { .. } => PipelineError::CreateVertexModule,
            PipelineBuild::CreatingFragmentModule { .. } => PipelineError::CreateFragmentModule,
            PipelineBuild::CreatingPipeline => PipelineError::CreatePipeline,
            _ => PipelineError::CompileShader,
        }
    }

    /// The state and the action after a success.
    pub open spec fn after_success(self, reply: PipelineReply) -> (PipelineBuild, PipelineAction) {
        match self {
            PipelineBuild::CompilingVertex { target, fragment_shader } => (
                PipelineBuild::CreatingVertexModule { target, fragment_shader },
                PipelineAction::CreateModule {
                    kind: ShaderKind::Vertex,
                    spirv: reply->Compiled_0->0,
                },
            ),
            PipelineBuild::CreatingVertexModule { target, fragment_shader } => (
                PipelineBuild::CompilingFragment { target },
                compilation(fragment_shader, ShaderKind::Fragment),
            ),
            PipelineBuild::CompilingFragment { target } => (
                PipelineBuild::CreatingFragmentModule { target },
                PipelineAction::CreateModule {
                    kind: ShaderKind::Fragment,
                    spirv: reply->Compiled_0->0,
                },
            ),
            PipelineBuild::CreatingFragmentModule { target } => (
                PipelineBuild::CreatingPipeline,
                PipelineAction::CreatePipeline(triangle_plan(target)),
            ),
            PipelineBuild::CreatingPipeline => (
                PipelineBuild::DestroyingVertexModule,
                PipelineAction::DestroyModule(ShaderKind::Vertex),
            ),
            PipelineBuild::DestroyingVertexModule => (
                PipelineBuild::DestroyingFragmentModule,
                PipelineAction::DestroyModule(ShaderKind::Fragment),
            ),
            _ => (PipelineBuild::Built, PipelineAction::Finish),
        }
    }

    /// The state and the action after a reply.
    pub open spec fn after(self, reply: PipelineReply) -> (PipelineBuild, PipelineAction) {
        if Self::fails(reply) {
            (PipelineBuild::Failed, PipelineAction::Abort(self.error()))
        } else {
            self.after_success(reply)
        }
    }

    /// Whether the reply answers what is being waited for.
    pub fn expects(&self, reply: &PipelineReply) -> (expected: bool)
        ensures
            expected == self.accepts(*reply),
    {
        match (self, reply) {
            (PipelineBuild::CompilingVertex { .. }, PipelineReply::Compiled(_)) => true,
            (PipelineBuild::CompilingFragment { .. }, PipelineReply::Compiled(_)) => true,
            (PipelineBuild::CreatingVertexModule { .. }, PipelineReply::ModuleCreated(_)) => true,
            (PipelineBuild::CreatingFragmentModule { .. }, PipelineReply::ModuleCreated(_)) => true,
            (PipelineBuild::CreatingPipeline, PipelineReply::PipelineCreated(_)) => true,
            (PipelineBuild::DestroyingVertexModule, PipelineReply::ModuleDestroyed) => true,
            (PipelineBuild::DestroyingFragmentModule, PipelineReply::ModuleDestroyed) => true,
            _ => false,
        }
    }

    /// Takes the outcome of the last action and says what comes next.
    pub fn resume(self, reply: PipelineReply) -> (next: (PipelineBuild, PipelineAction))
        requires
            self.accepts(reply),
        ensures
            next == self.after(reply),
    {
        match (self, reply) {
            (
                PipelineBuild::CompilingVertex { target, fragment_shader },
                PipelineReply::Compiled(Some(spirv)),
            ) => (
                PipelineBuild::CreatingVertexModule { target, fragment_shader },
                PipelineAction::CreateModule { kind: ShaderKind::Vertex, spirv },
            ),
            (
                PipelineBuild::CreatingVertexModule { target, fragment_shader },
                PipelineReply::ModuleCreated(true),
            ) => (
                PipelineBuild::CompilingFragment { target },
                compile_shader(fragment_shader, ShaderKind::Fragment),
            ),
            (PipelineBuild::CompilingFragment { target }, PipelineReply::Compiled(Some(spirv))) => (
                PipelineBuild::CreatingFragmentModule { target },
                PipelineAction::CreateModule { kind: ShaderKind::Fragment, spirv },
            ),
            (
                PipelineBuild::CreatingFragmentModule { target },
                PipelineReply::ModuleCreated(true),
            ) => (
                PipelineBuild::CreatingPipeline,
                PipelineAction::CreatePipeline(pipeline_plan(target)),
            ),
            (PipelineBuild::CreatingPipeline, PipelineReply::PipelineCreated(true)) => (
                PipelineBuild::DestroyingVertexModule,
                PipelineAction::DestroyModule(ShaderKind::Vertex),
            ),
            (PipelineBuild::DestroyingVertexModule, PipelineReply::ModuleDestroyed) => (
                PipelineBuild::DestroyingFragmentModule,
                PipelineAction::DestroyModule(ShaderKind::Fragment),
            ),
            (PipelineBuild::DestroyingFragmentModule, PipelineReply::ModuleDestroyed) => (
                PipelineBuild::Built,
                PipelineAction::Finish,
            ),
            (PipelineBuild::CreatingVertexModule { .. }, _) => (
                PipelineBuild::Failed,
                PipelineAction::Abort(PipelineError::CreateVertexModule),
            ),
            (PipelineBuild::CreatingFragmentModule { .. }, _) => (
                PipelineBuild::Failed,
                PipelineAction::Abort(PipelineError::CreateFragmentModule),
            ),
            (PipelineBuild::CreatingPipeline, _) => (
                PipelineBuild::Failed,
                PipelineAction::Abort(PipelineError::CreatePipeline),
            ),
            _ => (PipelineBuild::Failed, PipelineAction::Abort(PipelineError::CompileShader)),
        }
    }

    /// The shader modules that exist at this point.
    pub open spec fn live_modules(self) -> Set<ShaderKind> {
        match self {
            PipelineBuild::CompilingFragment { .. } | PipelineBuild::CreatingFragmentModule { .. }
                => set![ShaderKind::Vertex],
            PipelineBuild::CreatingPipeline | PipelineBuild::DestroyingVertexModule
                => set![ShaderKind::Vertex, ShaderKind::Fragment],
            PipelineBuild::DestroyingFragmentModule => set![ShaderKind::Fragment],
            _ => set![],
        }
    }

    /// The number of replies that are still to come if all goes well.
    pub open spec fn remaining(self) -> nat {
        match self {
            PipelineBuild::CompilingVertex { .. } => 7,
            PipelineBuild::CreatingVertexModule { .. } => 6,
            PipelineBuild::CompilingFragment { .. } => 5,
            PipelineBuild::CreatingFragmentModule { .. } => 4,
            PipelineBuild::CreatingPipeline => 3,
            PipelineBuild::DestroyingVertexModule => 2,
            PipelineBuild::DestroyingFragmentModule => 1,
            PipelineBuild::Built | PipelineBuild::Failed => 0,
        }
    }
}

/// The first state and the first action of a construction.
pub open spec fn first_step(
    target: PipelineTarget,
    vertex_shader: String,
    fragment_shader: String,
) -> (PipelineBuild, PipelineAction) {
    (
        PipelineBuild::CompilingVertex { target, fragment_shader },
        compilation(vertex_shader, ShaderKind::Vertex),
    )
}

/// Starts the construction of the pipeline for a render pass and a pipeline layout
/// from the sources of its two shaders.
pub fn make_pipeline(
    target: PipelineTarget,
    vertex_shader: String,
    fragment_shader: String,
) -> (first: (PipelineBuild, PipelineAction))
    ensures
        first == first_step(target, vertex_shader, fragment_shader),
        first.0 == (PipelineBuild::CompilingVertex { target, fragment_shader }),
        first.1 == compilation(vertex_shader, ShaderKind::Vertex),
{
    (
        PipelineBuild::CompilingVertex { target, fragment_shader },
        compile_shader(vertex_shader, ShaderKind::Vertex),
    )
}

/// The state after a series of replies, and the actions that followed them.
pub open spec fn run(build: PipelineBuild, replies: Seq<PipelineReply>) -> (
    PipelineBuild,
    Seq<PipelineAction>,
)
    decreases replies.len(),
{
    if replies.len() == 0 {
        (build, Seq::empty())
    } else {
        let (before, actions) = run(build, replies.drop_last());
        let (now, action) = before.after(replies.last());
        (now, actions.push(action))
    }
}

/// Each reply of the series answers what is being waited for when it comes.
pub open spec fn accepted(build: PipelineBuild, replies: Seq<PipelineReply>) -> bool
    decreases replies.len(),
{
    replies.len() > 0 ==> accepted(build, replies.drop_last()) && run(
        build,
        replies.drop_last(),
    ).0.accepts(replies.last())
}

/// The replies when nothing fails and the shaders compile to the given code.
pub open spec fn successes(vertex_spirv: Vec<u32>, fragment_spirv: Vec<u32>) -> Seq<PipelineReply> {
    seq![
        PipelineReply::Compiled(Some(vertex_spirv)),
        PipelineReply::ModuleCreated(true),
        PipelineReply::Compiled(Some(fragment_spirv)),
        PipelineReply::ModuleCreated(true),
        PipelineReply::PipelineCreated(true),
        PipelineReply::ModuleDestroyed,
        PipelineReply::ModuleDestroyed,
    ]
}

/// One reply further along a series.
proof fn run_next(build: PipelineBuild, replies: Seq<PipelineReply>, i: int)
    requires
        0 <= i < replies.len(),
    ensures
        replies.take(0) == Seq::<PipelineReply>::empty(),
        run(build, replies.take(i + 1)) == ({
            let (before, actions) = run(build, replies.take(i));
            let (now, action) = before.after(replies[i]);
            (now, actions.push(action))
        }),
        accepted(build, replies.take(i + 1)) == (accepted(build, replies.take(i)) && run(
            build,
            replies.take(i),
        ).0.accepts(replies[i])),
{
    assert(replies.take(i + 1).drop_last() =~= replies.take(i));
}

/// When nothing fails, each shader is compiled and made into a module, vertex
/// before fragment, the pipeline is created from both, for the render pass and the
/// pipeline layout that were given, both modules are destroyed, and the pipeline is
/// ready.
pub proof fn law_pipeline_is_built(
    target: PipelineTarget,
    fragment_shader: String,
    vertex_spirv: Vec<u32>,
    fragment_spirv: Vec<u32>,
)
    ensures
        accepted(
            PipelineBuild::CompilingVertex { target, fragment_shader },
            successes(vertex_spirv, fragment_spirv),
        ),
        run(
            PipelineBuild::CompilingVertex { target, fragment_shader },
            successes(vertex_spirv, fragment_spirv),
        ).0 is Built,
        run(
            PipelineBuild::CompilingVertex { target, fragment_shader },
            successes(vertex_spirv, fragment_spirv),
        ).1 == seq![
            PipelineAction::CreateModule { kind: ShaderKind::Vertex, spirv: vertex_spirv },
            compilation(fragment_shader, ShaderKind::Fragment),
            PipelineAction::CreateModule { kind: ShaderKind::Fragment, spirv: fragment_spirv },
            PipelineAction::CreatePipeline(triangle_plan(target)),
            PipelineAction::DestroyModule(ShaderKind::Vertex),
            PipelineAction::DestroyModule(ShaderKind::Fragment),
            PipelineAction::Finish,
        ],
{
    let start = PipelineBuild::CompilingVertex { target, fragment_shader };
    let all = successes(vertex_spirv, fragment_spirv);
    run_next(start, all, 0);
    run_next(start, all, 1);
    run_next(start, all, 2);
    run_next(start, all, 3);
    run_next(start, all, 4);
    run_next(start, all, 5);
    run_next(start, all, 6);
    assert(all.take(7) =~= all);
}

/// A pipeline is ready only if everything succeeded: any series of replies that
/// ends in `Built` is free of failures.
pub proof fn law_built_means_no_failure(
    target: PipelineTarget,
    fragment_shader: String,
    replies: Seq<PipelineReply>,
)
    requires
        accepted(PipelineBuild::CompilingVertex { target, fragment_shader }, replies),
        run(PipelineBuild::CompilingVertex { target, fragment_shader }, replies).0 is Built,
    ensures
        replies.len() == 7,
        forall|i: int| 0 <= i < 7 ==> !PipelineBuild::fails(#[trigger] replies[i]),
{
    let start = PipelineBuild::CompilingVertex { target, fragment_shader };
    no_failure_so_far(start, replies);
}

/// A state that is not `Failed` was reached without failures, one reply at a
/// time.
proof fn no_failure_so_far(start: PipelineBuild, replies: Seq<PipelineReply>)
    requires
        start is CompilingVertex,
        accepted(start, replies),
        run(start, replies).0 !is Failed,
    ensures
        replies.len() + run(start, replies).0.remaining() == 7,
        forall|i: int| 0 <= i < replies.len() ==> !PipelineBuild::fails(#[trigger] replies[i]),
    decreases replies.len(),
{
    if replies.len() > 0 {
        let front = replies.drop_last();
        no_failure_so_far(start, front);
        assert forall|i: int| 0 <= i < replies.len() implies !PipelineBuild::fails(
            #[trigger] replies[i],
        ) by {
            if i < front.len() {
                assert(!PipelineBuild::fails(front[i]));
            }
        }
    }
}

/// The construction comes to an end: each success brings it one reply nearer,
/// and a failure ends it at once, with the error that belongs to the step.
pub proof fn law_construction_ends(build: PipelineBuild, reply: PipelineReply)
    requires
        build.accepts(reply),
    ensures
        PipelineBuild::fails(reply) ==> build.after(reply) == (
            PipelineBuild::Failed,
            PipelineAction::Abort(build.error()),
        ),
        !PipelineBuild::fails(reply) ==> build.after(reply).0.remaining() + 1 == build.remaining(),
{
}

/// No module is left behind: along successes a module exists from its creation
/// to its destruction, the pipeline is created while both exist, and when the
/// pipeline is ready none does.
pub proof fn law_modules_are_destroyed(build: PipelineBuild, reply: PipelineReply)
    requires
        build.accepts(reply),
        !PipelineBuild::fails(reply),
    ensures
        build is CompilingVertex ==> build.live_modules() == Set::<ShaderKind>::empty(),
        build is CreatingVertexModule ==> build.after(reply).0.live_modules()
            == build.live_modules().insert(ShaderKind::Vertex),
        build is CreatingFragmentModule ==> build.after(reply).0.live_modules()
            == build.live_modules().insert(ShaderKind::Fragment),
        build is DestroyingVertexModule ==> build.after(reply).0.live_modules()
            == build.live_modules().remove(ShaderKind::Vertex),
        build is DestroyingFragmentModule ==> build.after(reply).0.live_modules()
            == build.live_modules().remove(ShaderKind::Fragment),
        reply !is ModuleCreated && reply !is ModuleDestroyed
            ==> build.after(reply).0.live_modules() == build.live_modules(),
        build.after(reply).1 is CreatePipeline ==> build.after(reply).0.live_modules()
            == set![ShaderKind::Vertex, ShaderKind::Fragment],
        build.after(reply).0 is Built ==> build.after(reply).0.live_modules() == Set::<
            ShaderKind,
        >::empty(),
{
    let (before, now) = (build.live_modules(), build.after(reply).0.live_modules());
    assert(build is CreatingFragmentModule ==> now =~= before.insert(ShaderKind::Fragment));
    assert(build is DestroyingVertexModule ==> now =~= before.remove(ShaderKind::Vertex));
    assert(build is DestroyingFragmentModule ==> now =~= before.remove(ShaderKind::Fragment));
}

/// Whatever it is made for, the pipeline fills triangles whose vertices run
/// counter-clockwise, leaves out the others, and does nothing else on the way from
/// the vertices to the fragments.
pub proof fn law_pipeline_fills_front_faces(target: PipelineTarget)
    ensures
        ({
            let rasterizer = triangle_plan(target).rasterizer;
            &&& rasterizer.polygon_mode is Fill
            &&& rasterizer.cull_face == 0x2
            &&& rasterizer.front_face is CounterClockwise
            &&& !rasterizer.depth_clamping
            &&& !rasterizer.depth_bias
            &&& !rasterizer.conservative
            &&& rasterizer.line_width == ONE
        }),
{
}

/// Whatever it is made for, the pipeline takes lists of triangles, without buffers,
/// and runs just the two shaders, each from its own module and its `main` function.
pub proof fn law_pipeline_runs_two_shaders(target: PipelineTarget)
    ensures
        ({
            let (assembler, fragment) = (
                triangle_plan(target).assembler,
                triangle_plan(target).fragment,
            );
            &&& assembler.buffers == 0
            &&& assembler.attributes == 0
            &&& assembler.input_assembler.primitive is TriangleList
            &&& !assembler.input_assembler.with_adjacency
            &&& assembler.input_assembler.restart_index is None
            &&& !assembler.tessellation
            &&& !assembler.geometry
            &&& assembler.vertex.module is Vertex
            &&& fragment.module is Fragment
            &&& assembler.vertex.entry@ == "main"@
            &&& fragment.entry@ == "main"@
            &&& assembler.vertex.specialization_constants == 0
            &&& fragment.specialization_constants == 0
        }),
{
}

/// Whatever it is made for, the pipeline writes all channels of its one attachment,
/// with the colour weighed by its alpha value against what is there, and tests
/// nothing.
pub proof fn law_pipeline_blends_by_alpha(target: PipelineTarget)
    ensures
        ({
            let plan = triangle_plan(target);
            &&& plan.color_target.mask == 0xf
            &&& plan.color_target.blend is Some
            &&& plan.color_target.blend->0.color matches BlendOp::Add { src, dst } && src
                is SrcAlpha && dst is OneMinusSrcAlpha
            &&& plan.color_target.blend->0.alpha matches BlendOp::Add { src, dst } && src is One
                && dst is OneMinusSrcAlpha
            &&& !plan.logic_op
            &&& !plan.depth_test
            &&& !plan.depth_bounds
            &&& !plan.stencil_test
            &&& !plan.multisampling
            &&& !plan.baked_states
            &&& plan.subpass == 0
            &&& plan.flags == 0
            &&& !plan.derived
            &&& !plan.cached
        }),
{
}

/// The target is all that two plans differ in, and it is the given one.
pub proof fn law_only_the_target_varies(one: PipelineTarget, other: PipelineTarget)
    ensures
        triangle_plan(one).target.render_pass == one.render_pass,
        triangle_plan(one).target.pipeline_layout == one.pipeline_layout,
        (PipelinePlan { target: other, ..triangle_plan(one) }) == triangle_plan(other),
{
}

/// The compiler is given the whole source, for the right stage, under a fixed name,
/// and without options.
pub proof fn law_compilation_keeps_the_source(glsl: String, shader_kind: ShaderKind)
    ensures
        compilation(glsl, shader_kind) matches PipelineAction::CompileShader {
            glsl: source,
            kind,
            file_name,
            entry_point,
            options,
        } && source == glsl && kind == shader_kind && file_name@ == "unnamed"@ && entry_point@
            == "main"@ && !options,
{
}

/// What is asked for is what is awaited: after each action exactly its answer is
/// accepted, and after the last one nothing is.
pub proof fn law_answer_is_awaited(build: PipelineBuild, reply: PipelineReply, next: PipelineReply)
    requires
        build.accepts(reply),
    ensures
        build.after(reply).0.accepts(next) <==> match build.after(reply).1 {
            PipelineAction::CompileShader { .. } => next is Compiled,
            PipelineAction::CreateModule { .. } => next is ModuleCreated,
            PipelineAction::CreatePipeline(_) => next is PipelineCreated,
            PipelineAction::DestroyModule(_) => next is ModuleDestroyed,
            PipelineAction::Finish | PipelineAction::Abort(_) => false,
        },
        build is CompilingVertex ==> (build.accepts(next) <==> next is Compiled),
{
}

/// Each action has one cause: a module is created from just what the compiler made
/// of its source, the pipeline after the second module and for the target of the
/// construction, and the modules are destroyed once it exists.
pub proof fn law_actions_have_their_causes(build: PipelineBuild, reply: PipelineReply)
    requires
        build.accepts(reply),
    ensures
        ({
            let (next, action) = build.after(reply);
            match action {
                PipelineAction::CompileShader { kind, glsl, .. } => {
                    &&& kind is Fragment
                    &&& build matches PipelineBuild::CreatingVertexModule {
                        target,
                        fragment_shader,
                    } && glsl == fragment_shader && next == (PipelineBuild::CompilingFragment {
                        target,
                    })
                    &&& reply == PipelineReply::ModuleCreated(true)
                },
                PipelineAction::CreateModule { kind, spirv } => {
                    &&& reply == PipelineReply::Compiled(Some(spirv))
                    &&& kind is Vertex ==> (build matches PipelineBuild::CompilingVertex {
                        target,
                        fragment_shader,
                    } && next == (PipelineBuild::CreatingVertexModule { target, fragment_shader }))
                    &&& kind is Fragment ==> (build matches PipelineBuild::CompilingFragment {
                        target,
                    } && next == (PipelineBuild::CreatingFragmentModule { target }))
                },
                PipelineAction::CreatePipeline(plan) => {
                    &&& reply == PipelineReply::ModuleCreated(true)
                    &&& build matches PipelineBuild::CreatingFragmentModule { target }
                        && plan.target == target && plan == triangle_plan(target)
                    &&& next is CreatingPipeline
                },
                PipelineAction::DestroyModule(kind) => {
                    &&& kind is Vertex ==> reply == PipelineReply::PipelineCreated(true) && next
                        is DestroyingVertexModule
                    &&& kind is Fragment ==> build is DestroyingVertexModule && next
                        is DestroyingFragmentModule
                },
                PipelineAction::Finish => build is DestroyingFragmentModule && next is Built,
                PipelineAction::Abort(_) => next is Failed,
            }
        }),
{
}

/// The construction is given up exactly when the compiler or the device fails, with
/// the error of the step that failed, whatever the pipeline is for.
pub proof fn law_failures_have_their_errors(build: PipelineBuild, reply: PipelineReply)
    requires
        build.accepts(reply),
    ensures
        ({
            let action = build.after(reply).1;
            &&& action is Abort <==> reply == PipelineReply::Compiled(None) || reply
                == PipelineReply::ModuleCreated(false) || reply == PipelineReply::PipelineCreated(
                false,
            )
            &&& action matches PipelineAction::Abort(error) ==> match error {
                PipelineError::CompileShader => build is CompilingVertex || build
                    is CompilingFragment,
                PipelineError::CreateVertexModule => build is CreatingVertexModule,
                PipelineError::CreateFragmentModule => build is CreatingFragmentModule,
                PipelineError::CreatePipeline => build is CreatingPipeline,
            }
        }),
{
}

/// A construction begins with the source of the vertex shader, and keeps that of the
/// fragment shader and what the pipeline is for.
pub proof fn law_vertex_shader_comes_first(
    target: PipelineTarget,
    vertex_shader: String,
    fragment_shader: String,
)
    ensures
        ({
            let (build, action) = first_step(target, vertex_shader, fragment_shader);
            &&& build is CompilingVertex
            &&& build->CompilingVertex_target.render_pass == target.render_pass
            &&& build->CompilingVertex_target.pipeline_layout == target.pipeline_layout
            &&& build->CompilingVertex_fragment_shader == fragment_shader
            &&& action matches PipelineAction::CompileShader { glsl, kind, .. } && glsl
                == vertex_shader && kind is Vertex
        }),
{
}

} // verus!
