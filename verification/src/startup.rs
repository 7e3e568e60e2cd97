//! The course from the start of the program to the first event.
//!
//! The window system and the graphics device do the work. The startup is a state
//! machine: each step names the next piece of work, and is resumed with its
//! outcome.
use crate::pipeline::{
    compilation, make_pipeline, triangle_plan, PipelineAction, PipelineBuild, PipelineError,
    PipelinePlan, PipelineReply, PipelineTarget, ShaderKind, FRAGMENT_SHADER_FILE,
    VERTEX_SHADER_FILE,
};
use crate::renderer::{Phase, Renderer};
use crate::resources::{Resources, Teardown};
use crate::scene::{ONE, PUSH_CONSTANT_END, PUSH_CONSTANT_STAGES, PUSH_CONSTANT_START};
use crate::setup::{
    check_formats, color_format, formats_known, law_selected_family_draws_and_presents, offered,
    select_queue_family, selected_family, surface_color_format, QueueFamilyInfo, APP_NAME,
    APP_VERSION, WINDOW_HEIGHT, WINDOW_WIDTH,
};
use gfx_hal::command::Level;
use gfx_hal::format::Format;
use gfx_hal::window::Extent2D;
use vstd::prelude::*;

verus! {

/// What has to be done next.
#[derive(Debug, PartialEq)]
pub enum StartupAction {
    /// Create the window, with its size in logical pixels.
    CreateWindow { title: &'static str, width: u32, height: u32 },
    /// Create an instance of the graphics backend.
    CreateInstance { name: &'static str, version: u32 },
    /// Create the surface of the window.
    CreateSurface,
    /// List the graphics adapters.
    ListAdapters,
    /// List the queue families of an adapter.
    ListQueueFamilies { adapter: usize },
    /// Open the device with one queue of a family.
    OpenDevice {
        family: usize,
        /// The priority of the queue, as the bits of a floating-point value.
        priority: u32,
        /// The mask of the features that are asked for.
        features: u128,
    },
    /// Create a command pool, and one command buffer from it.
    CreateCommandPool {
        /// The mask of the options of the pool.
        flags: u8,
        /// The level of the command buffer.
        level: Level,
    },
    /// List the formats of the surface.
    ListFormats,
    /// Create the render pass for a colour format.
    CreateRenderPass(Format),
    /// Create the pipeline layout, with one range of constants.
    CreatePipelineLayout {
        /// The number of layouts of descriptor sets.
        set_layouts: usize,
        /// The mask of the shader stages that receive the constants.
        stages: u32,
        /// The first byte of the constants.
        start: u32,
        /// The byte behind the last of the constants.
        end: u32,
    },
    /// Read the sources of the shaders.
    ReadShaders { vertex_file: &'static str, fragment_file: &'static str },
    /// Go on with the construction of the pipeline.
    Pipeline(PipelineAction),
    /// Create the fence of the submission.
    CreateFence { signaled: bool },
    /// Create the semaphore of the rendering.
    CreateSemaphore,
    /// Run the event loop, and in the end destroy the resources.
    Run { renderer: Renderer, resources: Resources },
    /// Give up.
    Abort(StartupError),
}

/// The outcome of what had to be done.
#[derive(Debug, PartialEq)]
pub enum StartupReply {
    /// Whether it was created or opened.
    Created(bool),
    /// The number of adapters.
    Adapters(usize),
    /// The queue families.
    QueueFamilies(Vec<QueueFamilyInfo>),
    /// The formats, where the surface states any.
    Formats(Option<Vec<Format>>),
    /// The sources of the shaders.
    ShadersRead { vertex_shader: String, fragment_shader: String },
    /// The outcome of a step in the construction of the pipeline.
    Pipeline(PipelineReply),
}

/// Why the program cannot start.
#[derive(Clone, Copy, Debug, PartialEq, Eq)]
pub enum StartupError {
    CreateWindow,
    CreateInstance,
    CreateSurface,
    NoAdapter,
    NoQueueFamily,
    OpenDevice,
    OutOfMemory,
    /// The pipeline could not be made.
    Pipeline(PipelineError),
}

impl StartupError {
    /// The message of the error.
    pub open spec fn text(self) -> Seq<char> {
        match self {
            StartupError::CreateWindow => "failed to create window"@,
            StartupError::CreateInstance => "Backend not supported"@,
            StartupError::CreateSurface => "Failed to creare surface for window"@,
            StartupError::NoAdapter => "No adapter found"@,
            StartupError::NoQueueFamily => "No compatible queue family found"@,
            StartupError::OpenDevice => "Failed to open device"@,
            StartupError::OutOfMemory => "Out of memory"@,
            StartupError::Pipeline(error) => error.text(),
        }
    }

    /// The message of the error.
    pub fn message(&self) -> (message: &'static str)
        ensures
            message@ == self.text(),
    {
        match self {
            StartupError::CreateWindow => "failed to create window",
            StartupError::CreateInstance => "Backend not supported",
            StartupError::CreateSurface => "Failed to creare surface for window",
            StartupError::NoAdapter => "No adapter found",
            StartupError::NoQueueFamily => "No compatible queue family found",
            StartupError::OpenDevice => "Failed to open device",
            StartupError::OutOfMemory => "Out of memory",
            StartupError::Pipeline(error) => error.message(),
        }
    }
}

/// What the startup is waiting for. Once the colour format is known, it is carried
/// along.
#[derive(Debug, PartialEq, Eq)]
pub enum StartupPhase {
    CreatingWindow,
    CreatingInstance,
    CreatingSurface,
    ListingAdapters,
    ListingQueueFamilies,
    OpeningDevice,
    CreatingCommandPool,
    ListingFormats,
    CreatingRenderPass(Format),
    CreatingPipelineLayout(Format),
    ReadingShaders(Format),
    MakingPipeline { format: Format, build: PipelineBuild },
    CreatingFence(Format),
    CreatingSemaphore(Format),
    Running,
    Failed,
}

/// How far the startup has come.
#[derive(Debug, PartialEq)]
pub struct Startup {
    /// The extent of the window in physical pixels.
    pub extent: Extent2D,
    /// What the startup is waiting for.
    pub phase: StartupPhase,
}

/// One resource of each repeated kind is made.
pub open spec fn made_resources() -> Resources {
    Resources { render_passes: 1, pipeline_layouts: 1, pipelines: 1 }
}

/// The pipeline is made for the one render pass and the one pipeline layout.
pub open spec fn made_target() -> PipelineTarget {
    PipelineTarget { render_pass: 0, pipeline_layout: 0 }
}

/// The renderer that the event loop begins with.
pub open spec fn first_renderer(format: Format, extent: Extent2D) -> Renderer {
    Renderer {
        surface_extent: extent,
        should_configure_swapchain: true,
        surface_color_format: format,
        phase: Phase::Idle,
    }
}

impl Startup {
    /// The reply answers what is being waited for.
    pub open spec fn accepts(self, reply: StartupReply) -> bool {
        match self.phase {
            StartupPhase::ListingAdapters => reply is Adapters,
            StartupPhase::ListingQueueFamilies => reply is QueueFamilies,
            StartupPhase::ListingFormats => reply matches StartupReply::Formats(supported)
                && formats_known(offered(supported)),
            StartupPhase::ReadingShaders(_) => reply is ShadersRead,
            StartupPhase::MakingPipeline { build, .. } => reply matches StartupReply::Pipeline(
                outcome,
            ) && build.accepts(outcome),
            StartupPhase::Running | StartupPhase::Failed => false,
            _ => reply is Created,
        }
    }

    /// The error that a failure to create something means here.
    pub open spec fn error(self) -> StartupError {
        match self.phase {
            StartupPhase::CreatingWindow => StartupError::CreateWindow,
            StartupPhase::CreatingInstance => StartupError::CreateInstance,
            StartupPhase::CreatingSurface => StartupError::CreateSurface,
            StartupPhase::OpeningDevice => StartupError::OpenDevice,
            _ => StartupError::OutOfMemory,
        }
    }

    /// The startup and the action when it goes on.
    pub open spec fn goes_on(self, phase: StartupPhase, action: StartupAction) -> (
        Startup,
        StartupAction,
    ) {
        (Startup { phase, ..self }, action)
    }

    /// The startup and the action when it gives up.
    pub open spec fn gives_up(self, error: StartupError) -> (Startup, StartupAction) {
        self.goes_on(StartupPhase::Failed, StartupAction::Abort(error))
    }

    /// The state and the action when what was asked for has been created.
    pub open spec fn after_creation(self) -> (Startup, StartupAction) {
        match self.phase {
            StartupPhase::CreatingWindow => self.goes_on(
                StartupPhase::CreatingInstance,
                StartupAction::CreateInstance { name: APP_NAME, version: APP_VERSION },
            ),
            StartupPhase::CreatingInstance => self.goes_on(
                StartupPhase::CreatingSurface,
                StartupAction::CreateSurface,
            ),
            StartupPhase::CreatingSurface => self.goes_on(
                StartupPhase::ListingAdapters,
                StartupAction::ListAdapters,
            ),
            StartupPhase::OpeningDevice => self.goes_on(
                StartupPhase::CreatingCommandPool,
                StartupAction::CreateCommandPool { flags: 0, level: Level::Primary },
            ),
            StartupPhase::CreatingCommandPool => self.goes_on(
                StartupPhase::ListingFormats,
                StartupAction::ListFormats,
            ),
            StartupPhase::CreatingRenderPass(format) => self.goes_on(
                StartupPhase::CreatingPipelineLayout(format),
                StartupAction::CreatePipelineLayout {
                    set_layouts: 0,
                    stages: PUSH_CONSTANT_STAGES,
                    start: PUSH_CONSTANT_START,
                    end: PUSH_CONSTANT_END,
                },
            ),
            StartupPhase::CreatingPipelineLayout(format) => self.goes_on(
                StartupPhase::ReadingShaders(format),
                StartupAction::ReadShaders {
                    vertex_file: VERTEX_SHADER_FILE,
                    fragment_file: FRAGMENT_SHADER_FILE,
                },
            ),
            StartupPhase::CreatingFence(format) => self.goes_on(
                StartupPhase::CreatingSemaphore(format),
                StartupAction::CreateSemaphore,
            ),
            StartupPhase::CreatingSemaphore(format) => self.goes_on(
                StartupPhase::Running,
                StartupAction::Run {
                    renderer: first_renderer(format, self.extent),
                    resources: made_resources(),
                },
            ),
            _ => self.gives_up(self.error()),
        }
    }

    /// The state and the action once the sources are known: the construction of the
    /// pipeline begins, with the first source for the vertex stage and the second
    /// for the fragment stage.
    pub open spec fn after_shaders(self, vertex_shader: String, fragment_shader: String) -> (
        Startup,
        StartupAction,
    ) {
        self.goes_on(
            StartupPhase::MakingPipeline {
                format: self.phase->ReadingShaders_0,
                build: PipelineBuild::CompilingVertex { target: made_target(), fragment_shader },
            },
            StartupAction::Pipeline(compilation(vertex_shader, ShaderKind::Vertex)),
        )
    }

    /// The state and the action after a step in the construction of the pipeline:
    /// the startup goes on once the pipeline is ready, and gives up if it cannot be
    /// made.
    pub open spec fn after_pipeline(self, reply: PipelineReply) -> (Startup, StartupAction) {
        let format = self.phase->MakingPipeline_format;
        let (build, action) = self.phase->MakingPipeline_build.after(reply);
        match action {
            PipelineAction::Finish => self.goes_on(
                StartupPhase::CreatingFence(format),
                StartupAction::CreateFence { signaled: true },
            ),
            PipelineAction::Abort(error) => self.gives_up(StartupError::Pipeline(error)),
            _ => self.goes_on(
                StartupPhase::MakingPipeline { format, build },
                StartupAction::Pipeline(action),
            ),
        }
    }

    /// The state and the action after a reply. Of several adapters the first is
    /// used.
    pub open spec fn after(self, reply: StartupReply) -> (Startup, StartupAction) {
        match reply {
            StartupReply::Created(created) => if created {
                self.after_creation()
            } else {
                self.gives_up(self.error())
            },
            StartupReply::Adapters(count) => if count > 0 {
                self.goes_on(
                    StartupPhase::ListingQueueFamilies,
                    StartupAction::ListQueueFamilies { adapter: 0 },
                )
            } else {
                self.gives_up(StartupError::NoAdapter)
            },
            StartupReply::QueueFamilies(families) => match selected_family(families@) {
                Some(family) => self.goes_on(
                    StartupPhase::OpeningDevice,
                    StartupAction::OpenDevice { family, priority: ONE, features: 0 },
                ),
                None => self.gives_up(StartupError::NoQueueFamily),
            },
            StartupReply::Formats(supported) => {
                let format = color_format(offered(supported));
                self.goes_on(
                    StartupPhase::CreatingRenderPass(format),
                    StartupAction::CreateRenderPass(format),
                )
            },
            StartupReply::ShadersRead { vertex_shader, fragment_shader } => self.after_shaders(
                vertex_shader,
                fragment_shader,
            ),
            StartupReply::Pipeline(outcome) => self.after_pipeline(outcome),
        }
    }

    /// Whether the reply answers what is being waited for.
    pub fn expects(&self, reply: &StartupReply) -> (expected: bool)
        ensures
            expected == self.accepts(*reply),
    {
        match (&self.phase, reply) {
            (StartupPhase::ListingAdapters, StartupReply::Adapters(_)) => true,
            (StartupPhase::ListingAdapters, _) => false,
            (StartupPhase::ListingQueueFamilies, StartupReply::QueueFamilies(_)) => true,
            (StartupPhase::ListingQueueFamilies, _) => false,
            (StartupPhase::ListingFormats, StartupReply::Formats(supported)) => check_formats(
                supported,
            ),
            (StartupPhase::ListingFormats, _) => false,
            (StartupPhase::ReadingShaders(_), StartupReply::ShadersRead { .. }) => true,
            (StartupPhase::ReadingShaders(_), _) => false,
            (
                StartupPhase::MakingPipeline { build, .. },
                StartupReply::Pipeline(outcome),
            ) => build.expects(outcome),
            (StartupPhase::MakingPipeline { .. }, _) => false,
            (StartupPhase::Running, _) => false,
            (StartupPhase::Failed, _) => false,
            (_, StartupReply::Created(_)) => true,
            _ => false,
        }
    }

    /// Goes on to wait for `action`.
    fn go_on(&self, phase: StartupPhase, action: StartupAction) -> (next: (Startup, StartupAction))
        ensures
            next == self.goes_on(phase, action),
    {
        (Startup { extent: self.extent, phase }, action)
    }

    /// Gives up.
    fn give_up(&self, error: StartupError) -> (next: (Startup, StartupAction))
        ensures
            next == self.gives_up(error),
    {
        self.go_on(StartupPhase::Failed, StartupAction::Abort(error))
    }

    /// Gives up because something could not be created.
    fn fail(&self) -> (next: (Startup, StartupAction))
        ensures
            next == self.gives_up(self.error()),
    {
        match &self.phase {
            StartupPhase::CreatingWindow => self.give_up(StartupError::CreateWindow),
            StartupPhase::CreatingInstance => self.give_up(StartupError::CreateInstance),
            StartupPhase::CreatingSurface => self.give_up(StartupError::CreateSurface),
            StartupPhase::OpeningDevice => self.give_up(StartupError::OpenDevice),
            _ => self.give_up(StartupError::OutOfMemory),
        }
    }

    /// Goes on when what was asked for has been created.
    fn succeed(&self) -> (next: (Startup, StartupAction))
        ensures
            next == self.after_creation(),
    {
        match &self.phase {
            StartupPhase::CreatingWindow => self.go_on(
                StartupPhase::CreatingInstance,
                StartupAction::CreateInstance { name: APP_NAME, version: APP_VERSION },
            ),
            StartupPhase::CreatingInstance => self.go_on(
                StartupPhase::CreatingSurface,
                StartupAction::CreateSurface,
            ),
            StartupPhase::CreatingSurface => self.go_on(
                StartupPhase::ListingAdapters,
                StartupAction::ListAdapters,
            ),
            StartupPhase::OpeningDevice => self.go_on(
                StartupPhase::CreatingCommandPool,
                StartupAction::CreateCommandPool { flags: 0, level: Level::Primary },
            ),
            StartupPhase::CreatingCommandPool => self.go_on(
                StartupPhase::ListingFormats,
                StartupAction::ListFormats,
            ),
            StartupPhase::CreatingRenderPass(format) => self.go_on(
                StartupPhase::CreatingPipelineLayout(*format),
                StartupAction::CreatePipelineLayout {
                    set_layouts: 0,
                    stages: PUSH_CONSTANT_STAGES,
                    start: PUSH_CONSTANT_START,
                    end: PUSH_CONSTANT_END,
                },
            ),
            StartupPhase::CreatingPipelineLayout(format) => self.go_on(
                StartupPhase::ReadingShaders(*format),
                StartupAction::ReadShaders {
                    vertex_file: VERTEX_SHADER_FILE,
                    fragment_file: FRAGMENT_SHADER_FILE,
                },
            ),
            StartupPhase::CreatingFence(format) => self.go_on(
                StartupPhase::CreatingSemaphore(*format),
                StartupAction::CreateSemaphore,
            ),
            StartupPhase::CreatingSemaphore(format) => self.go_on(
                StartupPhase::Running,
                StartupAction::Run {
                    renderer: Renderer::new(*format, self.extent),
                    resources: Resources { render_passes: 1, pipeline_layouts: 1, pipelines: 1 },
                },
            ),
            _ => self.fail(),
        }
    }

    /// Begins the construction of the pipeline.
    fn begin_pipeline(&self, vertex_shader: String, fragment_shader: String) -> (next: (
        Startup,
        StartupAction,
    ))
        requires
            self.phase is ReadingShaders,
        ensures
            next == self.after_shaders(vertex_shader, fragment_shader),
    {
        match &self.phase {
            StartupPhase::ReadingShaders(format) => {
                let target = PipelineTarget { render_pass: 0, pipeline_layout: 0 };
                let (build, action) = make_pipeline(target, vertex_shader, fragment_shader);
                self.go_on(
                    StartupPhase::MakingPipeline { format: *format, build },
                    StartupAction::Pipeline(action),
                )
            },
            _ => self.fail(),
        }
    }

    /// Goes on with the construction of the pipeline.
    fn advance_pipeline(self, outcome: PipelineReply) -> (next: (Startup, StartupAction))
        requires
            self.accepts(StartupReply::Pipeline(outcome)),
        ensures
            next == self.after_pipeline(outcome),
    {
        let startup = Startup { extent: self.extent, phase: StartupPhase::Failed };
        match self.phase {
            StartupPhase::MakingPipeline { format, build } => {
                let (build, action) = build.resume(outcome);
                match action {
                    PipelineAction::Finish => startup.go_on(
                        StartupPhase::CreatingFence(format),
                        StartupAction::CreateFence { signaled: true },
                    ),
                    PipelineAction::Abort(error) => startup.give_up(StartupError::Pipeline(error)),
                    _ => startup.go_on(
                        StartupPhase::MakingPipeline { format, build },
                        StartupAction::Pipeline(action),
                    ),
                }
            },
            _ => startup.fail(),
        }
    }

    /// Takes the outcome of the last action and says what comes next.
    pub fn resume(self, reply: StartupReply) -> (next: (Startup, StartupAction))
        requires
            self.accepts(reply),
        ensures
            next == self.after(reply),
    {
        match reply {
            StartupReply::Created(created) => if created {
                self.succeed()
            } else {
                self.fail()
            },
            StartupReply::Adapters(count) => if count > 0 {
                self.go_on(
                    StartupPhase::ListingQueueFamilies,
                    StartupAction::ListQueueFamilies { adapter: 0 },
                )
            } else {
                self.give_up(StartupError::NoAdapter)
            },
            StartupReply::QueueFamilies(families) => match select_queue_family(&families) {
                Some(family) => self.go_on(
                    StartupPhase::OpeningDevice,
                    StartupAction::OpenDevice { family, priority: ONE, features: 0 },
                ),
                None => self.give_up(StartupError::NoQueueFamily),
            },
            StartupReply::Formats(supported) => {
                let format = surface_color_format(supported);
                self.go_on(
                    StartupPhase::CreatingRenderPass(format),
                    StartupAction::CreateRenderPass(format),
                )
            },
            StartupReply::ShadersRead { vertex_shader, fragment_shader } => self.begin_pipeline(
                vertex_shader,
                fragment_shader,
            ),
            StartupReply::Pipeline(outcome) => self.advance_pipeline(outcome),
        }
    }
}

/// The first state and the first action, for a window of the given extent in physical
/// pixels.
pub open spec fn first_step(extent: Extent2D) -> (Startup, StartupAction) {
    (
        Startup { extent, phase: StartupPhase::CreatingWindow },
        StartupAction::CreateWindow {
            title: APP_NAME,
            width: WINDOW_WIDTH,
            height: WINDOW_HEIGHT,
        },
    )
}

/// Starts the program with a window of the given extent in physical pixels.
pub fn start(extent: Extent2D) -> (first: (Startup, StartupAction))
    ensures
        first == first_step(extent),
        first.0 == (Startup { extent, phase: StartupPhase::CreatingWindow }),
        first.1 == (StartupAction::CreateWindow {
            title: APP_NAME,
            width: WINDOW_WIDTH,
            height: WINDOW_HEIGHT,
        }),
{
    (
        Startup { extent, phase: StartupPhase::CreatingWindow },
        StartupAction::CreateWindow {
            title: APP_NAME,
            width: WINDOW_WIDTH,
            height: WINDOW_HEIGHT,
        },
    )
}

/// The state after a series of replies, and the actions that followed them.
pub open spec fn run(startup: Startup, replies: Seq<StartupReply>) -> (Startup, Seq<StartupAction>)
    decreases replies.len(),
{
    if replies.len() == 0 {
        (startup, Seq::empty())
    } else {
        let (before, actions) = run(startup, replies.drop_last());
        let (now, action) = before.after(replies.last());
        (now, actions.push(action))
    }
}

/// Each reply of the series answers what is being waited for when it comes.
pub open spec fn accepted(startup: Startup, replies: Seq<StartupReply>) -> bool
    decreases replies.len(),
{
    replies.len() > 0 ==> accepted(startup, replies.drop_last()) && run(
        startup,
        replies.drop_last(),
    ).0.accepts(replies.last())
}

/// The sources of the two shaders and what they compile to.
pub struct Shaders {
    pub vertex_shader: String,
    pub fragment_shader: String,
    pub vertex_spirv: Vec<u32>,
    pub fragment_spirv: Vec<u32>,
}

/// The replies of a startup in which nothing fails.
pub open spec fn successes(
    adapters: usize,
    families: Vec<QueueFamilyInfo>,
    supported: Option<Vec<Format>>,
    shaders: Shaders,
) -> Seq<StartupReply> {
    seq![
        StartupReply::Created(true),
        StartupReply::Created(true),
        StartupReply::Created(true),
        StartupReply::Adapters(adapters),
        StartupReply::QueueFamilies(families),
        StartupReply::Created(true),
        StartupReply::Created(true),
        StartupReply::Formats(supported),
        StartupReply::Created(true),
        StartupReply::Created(true),
        StartupReply::ShadersRead {
            vertex_shader: shaders.vertex_shader,
            fragment_shader: shaders.fragment_shader,
        },
        StartupReply::Pipeline(PipelineReply::Compiled(Some(shaders.vertex_spirv))),
        StartupReply::Pipeline(PipelineReply::ModuleCreated(true)),
        StartupReply::Pipeline(PipelineReply::Compiled(Some(shaders.fragment_spirv))),
        StartupReply::Pipeline(PipelineReply::ModuleCreated(true)),
        StartupReply::Pipeline(PipelineReply::PipelineCreated(true)),
        StartupReply::Pipeline(PipelineReply::ModuleDestroyed),
        StartupReply::Pipeline(PipelineReply::ModuleDestroyed),
        StartupReply::Created(true),
        StartupReply::Created(true),
    ]
}

/// The actions of a startup in which nothing fails, after the creation of the
/// window.
pub open spec fn course(
    extent: Extent2D,
    family: usize,
    format: Format,
    shaders: Shaders,
) -> Seq<StartupAction> {
    seq![
        StartupAction::CreateInstance { name: APP_NAME, version: APP_VERSION },
        StartupAction::CreateSurface,
        StartupAction::ListAdapters,
        StartupAction::ListQueueFamilies { adapter: 0 },
        StartupAction::OpenDevice { family, priority: ONE, features: 0 },
        StartupAction::CreateCommandPool { flags: 0, level: Level::Primary },
        StartupAction::ListFormats,
        StartupAction::CreateRenderPass(format),
        StartupAction::CreatePipelineLayout {
            set_layouts: 0,
            stages: PUSH_CONSTANT_STAGES,
            start: PUSH_CONSTANT_START,
            end: PUSH_CONSTANT_END,
        },
        StartupAction::ReadShaders {
            vertex_file: VERTEX_SHADER_FILE,
            fragment_file: FRAGMENT_SHADER_FILE,
        },
        StartupAction::Pipeline(compilation(shaders.vertex_shader, ShaderKind::Vertex)),
        StartupAction::Pipeline(
            PipelineAction::CreateModule { kind: ShaderKind::Vertex, spirv: shaders.vertex_spirv },
        ),
        StartupAction::Pipeline(compilation(shaders.fragment_shader, ShaderKind::Fragment)),
        StartupAction::Pipeline(
            PipelineAction::CreateModule {
                kind: ShaderKind::Fragment,
                spirv: shaders.fragment_spirv,
            },
        ),
        StartupAction::Pipeline(PipelineAction::CreatePipeline(triangle_plan(made_target()))),
        StartupAction::Pipeline(PipelineAction::DestroyModule(ShaderKind::Vertex)),
        StartupAction::Pipeline(PipelineAction::DestroyModule(ShaderKind::Fragment)),
        StartupAction::CreateFence { signaled: true },
        StartupAction::CreateSemaphore,
        StartupAction::Run {
            renderer: first_renderer(format, extent),
            resources: made_resources(),
        },
    ]
}

/// Along the series, after its first `i` replies, the startup is at `now` and has
/// asked for the first `i` actions.
spec fn is_at(
    extent: Extent2D,
    replies: Seq<StartupReply>,
    actions: Seq<StartupAction>,
    i: int,
    now: Startup,
) -> bool {
    let start = Startup { extent, phase: StartupPhase::CreatingWindow };
    accepted(start, replies.take(i)) && run(start, replies.take(i)) == (now, actions.take(i))
}

/// One reply further along a series.
proof fn goes_along(
    extent: Extent2D,
    replies: Seq<StartupReply>,
    actions: Seq<StartupAction>,
    i: int,
    before: Startup,
    phase: StartupPhase,
)
    requires
        0 <= i < replies.len() == actions.len(),
        is_at(extent, replies, actions, i, before),
        before.accepts(replies[i]),
        before.after(replies[i]) == (Startup { phase, ..before }, actions[i]),
    ensures
        is_at(extent, replies, actions, i + 1, Startup { phase, ..before }),
{
    assert(replies.take(i + 1).drop_last() =~= replies.take(i));
    assert(actions.take(i + 1) =~= actions.take(i).push(actions[i]));
}

/// A startup in which nothing fails, up to the sources of the shaders.
proof fn reaches_the_shaders(
    extent: Extent2D,
    adapters: usize,
    families: Vec<QueueFamilyInfo>,
    supported: Option<Vec<Format>>,
    shaders: Shaders,
)
    requires
        adapters > 0,
        selected_family(families@) is Some,
        formats_known(offered(supported)),
    ensures
        is_at(
            extent,
            successes(adapters, families, supported, shaders),
            course(
                extent,
                selected_family(families@)->0,
                color_format(offered(supported)),
                shaders,
            ),
            10,
            Startup {
                extent,
                phase: StartupPhase::ReadingShaders(color_format(offered(supported))),
            },
        ),
{
    let format = color_format(offered(supported));
    let all = successes(adapters, families, supported, shaders);
    let actions = course(extent, selected_family(families@)->0, format, shaders);
    let s0 = Startup { extent, phase: StartupPhase::CreatingWindow };
    let s1 = Startup { extent, phase: StartupPhase::CreatingInstance };
    let s2 = Startup { extent, phase: StartupPhase::CreatingSurface };
    let s3 = Startup { extent, phase: StartupPhase::ListingAdapters };
    let s4 = Startup { extent, phase: StartupPhase::ListingQueueFamilies };
    let s5 = Startup { extent, phase: StartupPhase::OpeningDevice };
    let s6 = Startup { extent, phase: StartupPhase::CreatingCommandPool };
    let s7 = Startup { extent, phase: StartupPhase::ListingFormats };
    let s8 = Startup { extent, phase: StartupPhase::CreatingRenderPass(format) };
    let s9 = Startup { extent, phase: StartupPhase::CreatingPipelineLayout(format) };
    assert(all.take(0) =~= Seq::empty());
    assert(actions.take(0) =~= Seq::empty());
    goes_along(extent, all, actions, 0, s0, s1.phase);
    goes_along(extent, all, actions, 1, s1, s2.phase);
    goes_along(extent, all, actions, 2, s2, s3.phase);
    goes_along(extent, all, actions, 3, s3, s4.phase);
    goes_along(extent, all, actions, 4, s4, s5.phase);
    goes_along(extent, all, actions, 5, s5, s6.phase);
    goes_along(extent, all, actions, 6, s6, s7.phase);
    goes_along(extent, all, actions, 7, s7, s8.phase);
    goes_along(extent, all, actions, 8, s8, s9.phase);
    goes_along(extent, all, actions, 9, s9, StartupPhase::ReadingShaders(format));
}

/// The rest of a startup in which nothing fails.
proof fn reaches_the_event_loop(
    extent: Extent2D,
    adapters: usize,
    families: Vec<QueueFamilyInfo>,
    supported: Option<Vec<Format>>,
    shaders: Shaders,
    family: usize,
    format: Format,
)
    requires
        is_at(
            extent,
            successes(adapters, families, supported, shaders),
            course(extent, family, format, shaders),
            10,
            Startup { extent, phase: StartupPhase::ReadingShaders(format) },
        ),
    ensures
        is_at(
            extent,
            successes(adapters, families, supported, shaders),
            course(extent, family, format, shaders),
            20,
            Startup { extent, phase: StartupPhase::Running },
        ),
{
    let all = successes(adapters, families, supported, shaders);
    let actions = course(extent, family, format, shaders);
    let target = made_target();
    let fragment_shader = shaders.fragment_shader;
    let b1 = PipelineBuild::CompilingVertex { target, fragment_shader };
    let b2 = PipelineBuild::CreatingVertexModule { target, fragment_shader };
    let b3 = PipelineBuild::CompilingFragment { target };
    let b4 = PipelineBuild::CreatingFragmentModule { target };
    let s0 = Startup { extent, phase: StartupPhase::ReadingShaders(format) };
    let s1 = Startup { extent, phase: StartupPhase::MakingPipeline { format, build: b1 } };
    let s2 = Startup { extent, phase: StartupPhase::MakingPipeline { format, build: b2 } };
    let s3 = Startup { extent, phase: StartupPhase::MakingPipeline { format, build: b3 } };
    let s4 = Startup { extent, phase: StartupPhase::MakingPipeline { format, build: b4 } };
    let s5 = Startup {
        extent,
        phase: StartupPhase::MakingPipeline { format, build: PipelineBuild::CreatingPipeline },
    };
    let s6 = Startup {
        extent,
        phase: StartupPhase::MakingPipeline {
            format,
            build: PipelineBuild::DestroyingVertexModule,
        },
    };
    let s7 = Startup {
        extent,
        phase: StartupPhase::MakingPipeline {
            format,
            build: PipelineBuild::DestroyingFragmentModule,
        },
    };
    let s8 = Startup { extent, phase: StartupPhase::CreatingFence(format) };
    let s9 = Startup { extent, phase: StartupPhase::CreatingSemaphore(format) };
    goes_along(extent, all, actions, 10, s0, s1.phase);
    goes_along(extent, all, actions, 11, s1, s2.phase);
    goes_along(extent, all, actions, 12, s2, s3.phase);
    goes_along(extent, all, actions, 13, s3, s4.phase);
    goes_along(extent, all, actions, 14, s4, s5.phase);
    goes_along(extent, all, actions, 15, s5, s6.phase);
    goes_along(extent, all, actions, 16, s6, s7.phase);
    goes_along(extent, all, actions, 17, s7, s8.phase);
    goes_along(extent, all, actions, 18, s8, s9.phase);
    goes_along(extent, all, actions, 19, s9, StartupPhase::Running);
}

/// When nothing fails, the program opens the first adapter with the first queue
/// family that fits, makes its resources for the colour format of the surface and
/// the pipeline from the sources of its shaders, each for its own stage, and runs
/// with a window that is still to be configured.
pub proof fn law_program_starts(
    extent: Extent2D,
    adapters: usize,
    families: Vec<QueueFamilyInfo>,
    supported: Option<Vec<Format>>,
    shaders: Shaders,
)
    requires
        adapters > 0,
        selected_family(families@) is Some,
        formats_known(offered(supported)),
    ensures
        accepted(
            Startup { extent, phase: StartupPhase::CreatingWindow },
            successes(adapters, families, supported, shaders),
        ),
        run(
            Startup { extent, phase: StartupPhase::CreatingWindow },
            successes(adapters, families, supported, shaders),
        ) == (
            Startup { extent, phase: StartupPhase::Running },
            course(
                extent,
                selected_family(families@)->0,
                color_format(offered(supported)),
                shaders,
            ),
        ),
{
    let family = selected_family(families@)->0;
    let format = color_format(offered(supported));
    reaches_the_shaders(extent, adapters, families, supported, shaders);
    reaches_the_event_loop(extent, adapters, families, supported, shaders, family, format);
    let all = successes(adapters, families, supported, shaders);
    let actions = course(extent, family, format, shaders);
    assert(all.take(20) =~= all);
    assert(actions.take(20) =~= actions);
}

/// The reply is a failure: something was not created, or there is nothing to
/// choose from.
pub open spec fn fails(reply: StartupReply) -> bool {
    match reply {
        StartupReply::Created(created) => !created,
        StartupReply::Adapters(count) => count == 0,
        StartupReply::QueueFamilies(families) => selected_family(families@) is None,
        StartupReply::Pipeline(outcome) => PipelineBuild::fails(outcome),
        StartupReply::Formats(_) | StartupReply::ShadersRead { .. } => false,
    }
}

/// A startup that has not failed has come one reply nearer each time, without a
/// failure.
proof fn no_failure_so_far(start: Startup, replies: Seq<StartupReply>)
    requires
        start.phase is CreatingWindow,
        accepted(start, replies),
        run(start, replies).0.phase !is Failed,
    ensures
        replies.len() + remaining(run(start, replies).0.phase) == 20,
        forall|i: int| 0 <= i < replies.len() ==> !fails(#[trigger] replies[i]),
    decreases replies.len(),
{
    if replies.len() > 0 {
        let front = replies.drop_last();
        no_failure_so_far(start, front);
        assert forall|i: int| 0 <= i < replies.len() implies !fails(#[trigger] replies[i]) by {
            if i < front.len() {
                assert(!fails(front[i]));
            }
        }
    }
}

/// The program runs only if everything succeeded: any series of replies that ends
/// in `Running` is complete and free of failures.
pub proof fn law_running_means_no_failure(extent: Extent2D, replies: Seq<StartupReply>)
    requires
        accepted(Startup { extent, phase: StartupPhase::CreatingWindow }, replies),
        run(Startup { extent, phase: StartupPhase::CreatingWindow }, replies).0.phase is Running,
    ensures
        replies.len() == 20,
        forall|i: int| 0 <= i < 20 ==> !fails(#[trigger] replies[i]),
{
    no_failure_so_far(Startup { extent, phase: StartupPhase::CreatingWindow }, replies);
}

/// The number of replies that are still to come if all goes well.
pub open spec fn remaining(phase: StartupPhase) -> nat {
    match phase {
        StartupPhase::CreatingWindow => 20,
        StartupPhase::CreatingInstance => 19,
        StartupPhase::CreatingSurface => 18,
        StartupPhase::ListingAdapters => 17,
        StartupPhase::ListingQueueFamilies => 16,
        StartupPhase::OpeningDevice => 15,
        StartupPhase::CreatingCommandPool => 14,
        StartupPhase::ListingFormats => 13,
        StartupPhase::CreatingRenderPass(_) => 12,
        StartupPhase::CreatingPipelineLayout(_) => 11,
        StartupPhase::ReadingShaders(_) => 10,
        StartupPhase::MakingPipeline { build, .. } => 2 + build.remaining(),
        StartupPhase::CreatingFence(_) => 2,
        StartupPhase::CreatingSemaphore(_) => 1,
        StartupPhase::Running | StartupPhase::Failed => 0,
    }
}

/// The startup comes to an end: each success brings it one reply nearer, and a
/// failure ends it at once.
pub proof fn law_startup_ends(startup: Startup, reply: StartupReply)
    requires
        startup.accepts(reply),
    ensures
        startup.after(reply).1 is Abort <==> fails(reply),
        startup.after(reply).1 is Abort <==> startup.after(reply).0.phase is Failed,
        startup.after(reply).1 !is Abort ==> remaining(startup.after(reply).0.phase) + 1
            == remaining(startup.phase),
        startup.after(reply).1 is Run <==> startup.after(reply).0.phase is Running,
{
}

/// The resource that an action makes, by the step that destroys it again.
pub open spec fn made_by(action: StartupAction) -> Option<Teardown> {
    match action {
        StartupAction::CreateSurface => Some(Teardown::DestroySurface),
        StartupAction::CreateCommandPool { .. } => Some(Teardown::DestroyCommandPool),
        StartupAction::CreateRenderPass(_) => Some(Teardown::DestroyRenderPass(0)),
        StartupAction::CreatePipelineLayout { .. } => Some(Teardown::DestroyPipelineLayout(0)),
        StartupAction::Pipeline(PipelineAction::CreatePipeline(_)) => Some(
            Teardown::DestroyPipeline(0),
        ),
        StartupAction::CreateFence { .. } => Some(Teardown::DestroyFence),
        StartupAction::CreateSemaphore => Some(Teardown::DestroySemaphore),
        _ => None,
    }
}

/// What the startup makes is what the teardown destroys, each resource once: every
/// resource that is made is among those that are destroyed, and every one that is
/// destroyed was made, by one action. The swapchain is not made at startup but
/// comes and goes with the surface.
pub proof fn law_what_is_made_is_destroyed(
    extent: Extent2D,
    family: usize,
    format: Format,
    shaders: Shaders,
    step: Teardown,
)
    requires
        step !is UnconfigureSwapchain,
    ensures
        made_resources().order().contains(step) <==> exists|k: int|
            0 <= k < course(extent, family, format, shaders).len() && made_by(
                #[trigger] course(extent, family, format, shaders)[k],
            ) == Some(step),
        forall|j: int, k: int|
            0 <= j < k < course(extent, family, format, shaders).len() && made_by(
                #[trigger] course(extent, family, format, shaders)[j],
            ) == Some(step) ==> made_by(#[trigger] course(extent, family, format, shaders)[k])
                != Some(step),
{
    let actions = course(extent, family, format, shaders);
    let order = made_resources().order();
    assert(order =~= seq![
        Teardown::DestroySemaphore,
        Teardown::DestroyFence,
        Teardown::DestroyPipeline(0),
        Teardown::DestroyPipelineLayout(0),
        Teardown::DestroyRenderPass(0),
        Teardown::DestroyCommandPool,
        Teardown::UnconfigureSwapchain,
        Teardown::DestroySurface,
    ]);
    assert(made_by(actions[18]) == Some(order[0]));
    assert(made_by(actions[17]) == Some(order[1]));
    assert(made_by(actions[14]) == Some(order[2]));
    assert(made_by(actions[8]) == Some(order[3]));
    assert(made_by(actions[7]) == Some(order[4]));
    assert(made_by(actions[5]) == Some(order[5]));
    assert(made_by(actions[1]) == Some(order[7]));
}

/// The startup goes on to what follows the pipeline if and only if the construction
/// of the pipeline has just ended with the pipeline ready.
pub proof fn law_startup_goes_on_with_a_built_pipeline(startup: Startup, reply: StartupReply)
    requires
        startup.accepts(reply),
    ensures
        startup.after(reply).0.phase is CreatingFence <==> (startup.phase matches
            StartupPhase::MakingPipeline { build, .. } && build.after(
            reply->Pipeline_0,
        ).0 is Built),
{
}

/// The pipeline is made from what the startup made: when it is created, the render
/// pass and the pipeline layout that it names have been created before, and are held
/// until the end.
pub proof fn law_pipeline_is_for_what_is_made(
    extent: Extent2D,
    family: usize,
    format: Format,
    shaders: Shaders,
    k: int,
    plan: PipelinePlan,
)
    requires
        0 <= k < course(extent, family, format, shaders).len(),
        course(extent, family, format, shaders)[k] == StartupAction::Pipeline(
            PipelineAction::CreatePipeline(plan),
        ),
    ensures
        plan.target.render_pass < made_resources().render_passes,
        plan.target.pipeline_layout < made_resources().pipeline_layouts,
        exists|j: int|
            0 <= j < k && made_by(#[trigger] course(extent, family, format, shaders)[j]) == Some(
                Teardown::DestroyRenderPass(plan.target.render_pass),
            ),
        exists|j: int|
            0 <= j < k && made_by(#[trigger] course(extent, family, format, shaders)[j]) == Some(
                Teardown::DestroyPipelineLayout(plan.target.pipeline_layout),
            ),
{
    let actions = course(extent, family, format, shaders);
    assert(k == 14);
    assert(made_by(actions[7]) == Some(Teardown::DestroyRenderPass(0)));
    assert(made_by(actions[8]) == Some(Teardown::DestroyPipelineLayout(0)));
}

/// Each thing is asked for right after what it needs has succeeded, for every window
/// and whatever was found so far.
pub proof fn law_actions_have_their_causes(startup: Startup, reply: StartupReply)
    requires
        startup.accepts(reply),
    ensures
        ({
            let action = startup.after(reply).1;
            let phase = startup.phase;
            let created = reply == StartupReply::Created(true);
            &&& action !is CreateWindow
            &&& action is CreateInstance <==> created && phase is CreatingWindow
            &&& action is CreateSurface <==> created && phase is CreatingInstance
            &&& action is ListAdapters <==> created && phase is CreatingSurface
            &&& action is ListQueueFamilies <==> (reply matches StartupReply::Adapters(count)
                && count > 0)
            &&& action is OpenDevice ==> reply is QueueFamilies
            &&& action is CreateCommandPool <==> created && phase is OpeningDevice
            &&& action is ListFormats <==> created && phase is CreatingCommandPool
            &&& action is CreateRenderPass <==> reply is Formats
            &&& action is CreatePipelineLayout <==> created && phase is CreatingRenderPass
            &&& action is ReadShaders <==> created && phase is CreatingPipelineLayout
            &&& reply is ShadersRead ==> action is Pipeline
            &&& action is Pipeline ==> reply is ShadersRead || reply is Pipeline
            &&& action is CreateFence ==> reply is Pipeline
            &&& action is CreateSemaphore <==> created && phase is CreatingFence
            &&& action is Run <==> created && phase is CreatingSemaphore
        }),
{
}

/// What is asked for is what is awaited: after each action the startup is in the phase
/// of that action.
pub proof fn law_answer_is_awaited(startup: Startup, reply: StartupReply)
    requires
        startup.accepts(reply),
    ensures
        ({
            let (next, action) = startup.after(reply);
            let phase = next.phase;
            &&& next.extent.width == startup.extent.width
            &&& next.extent.height == startup.extent.height
            &&& action is CreateInstance <==> phase is CreatingInstance
            &&& action is CreateSurface <==> phase is CreatingSurface
            &&& action is ListAdapters <==> phase is ListingAdapters
            &&& action is ListQueueFamilies <==> phase is ListingQueueFamilies
            &&& action is OpenDevice <==> phase is OpeningDevice
            &&& action is CreateCommandPool <==> phase is CreatingCommandPool
            &&& action is ListFormats <==> phase is ListingFormats
            &&& action is CreateRenderPass <==> phase is CreatingRenderPass
            &&& action is CreatePipelineLayout <==> phase is CreatingPipelineLayout
            &&& action is ReadShaders <==> phase is ReadingShaders
            &&& action is Pipeline <==> phase is MakingPipeline
            &&& action is CreateFence <==> phase is CreatingFence
            &&& action is CreateSemaphore <==> phase is CreatingSemaphore
            &&& action is Run <==> phase is Running
            &&& action is Abort <==> phase is Failed
        }),
{
}

/// Which reply is an answer: each phase accepts the replies of one kind, and of these
/// all, but for lists of formats and steps of the pipeline that cannot be.
pub proof fn law_phases_accept_one_kind(startup: Startup, reply: StartupReply)
    ensures
        ({
            let phase = startup.phase;
            match reply {
                StartupReply::Created(_) => startup.accepts(reply) <==> {
                    ||| phase is CreatingWindow
                    ||| phase is CreatingInstance
                    ||| phase is CreatingSurface
                    ||| phase is OpeningDevice
                    ||| phase is CreatingCommandPool
                    ||| phase is CreatingRenderPass
                    ||| phase is CreatingPipelineLayout
                    ||| phase is CreatingFence
                    ||| phase is CreatingSemaphore
                },
                StartupReply::Adapters(_) => startup.accepts(reply) <==> phase is ListingAdapters,
                StartupReply::QueueFamilies(_) => startup.accepts(reply) <==> phase
                    is ListingQueueFamilies,
                StartupReply::Formats(supported) => startup.accepts(reply) <==> phase
                    is ListingFormats && formats_known(offered(supported)),
                StartupReply::ShadersRead { .. } => startup.accepts(reply) <==> phase
                    is ReadingShaders,
                StartupReply::Pipeline(outcome) => startup.accepts(reply) <==> (phase matches
                    StartupPhase::MakingPipeline { build, .. } && build.accepts(outcome)),
            }
        }),
{
}

/// The settings of what is asked for are the same for every window and every device:
/// the program's name and version, the first adapter, a queue of full priority and no
/// features, an empty mask and the primary level for the command buffer, one range of
/// constants for the vertex shader, and a fence that is signalled at first.
pub proof fn law_settings_never_vary(startup: Startup, reply: StartupReply)
    requires
        startup.accepts(reply),
    ensures
        match startup.after(reply).1 {
            StartupAction::CreateInstance { name, version } => name@ == "Rust GFX"@ && version == 1,
            StartupAction::ListQueueFamilies { adapter } => adapter == 0,
            StartupAction::OpenDevice { priority, features, .. } => priority == ONE && features
                == 0,
            StartupAction::CreateCommandPool { flags, level } => flags == 0 && level is Primary,
            StartupAction::CreatePipelineLayout { set_layouts, stages, start, end } => set_layouts
                == 0 && stages == 0x1 && start == 0 && end == 32,
            StartupAction::ReadShaders { vertex_file, fragment_file } => vertex_file@
                == "shaders/triangle.vert"@ && fragment_file@ == "shaders/triangle.frag"@,
            StartupAction::CreateFence { signaled } => signaled,
            StartupAction::Run { resources, .. } => resources.render_passes == 1
                && resources.pipeline_layouts == 1 && resources.pipelines == 1,
            _ => true,
        },
{
}

/// The device is opened with a family that presents and has general or graphics
/// queues, and that no such family precedes; and it is opened whenever there is one.
pub proof fn law_device_is_opened_with_a_fitting_family(
    startup: Startup,
    families: Vec<QueueFamilyInfo>,
    j: int,
)
    requires
        startup.phase is ListingQueueFamilies,
        families@.len() <= usize::MAX,
    ensures
        ({
            let action = startup.after(StartupReply::QueueFamilies(families)).1;
            let fits = |i: int|
                families@[i].presents && (families@[i].queue_type is General
                    || families@[i].queue_type is Graphics);
            &&& action matches StartupAction::OpenDevice { family, .. } ==> family < families@.len()
                && fits(family as int)
            &&& 0 <= j < families@.len() && fits(j) ==> (action matches
                StartupAction::OpenDevice { family, .. } && family <= j)
            &&& action is OpenDevice || action == StartupAction::Abort(StartupError::NoQueueFamily)
        }),
{
    law_selected_family_draws_and_presents(families@, j);
}

/// The colour format is chosen from what the surface lists, its first sRGB format or
/// else its first or else `Rgba8Srgb`, and from then on kept for the render pass and
/// the renderer.
pub proof fn law_color_format_is_carried(startup: Startup, reply: StartupReply)
    requires
        startup.accepts(reply),
    ensures
        ({
            let (next, action) = startup.after(reply);
            &&& reply matches StartupReply::Formats(supported) ==> (action matches
                StartupAction::CreateRenderPass(format) && next.phase
                == StartupPhase::CreatingRenderPass(format) && format == color_format(
                offered(supported),
            ))
            &&& next.phase matches StartupPhase::CreatingPipelineLayout(format) ==> startup.phase
                == StartupPhase::CreatingRenderPass(format)
            &&& next.phase matches StartupPhase::ReadingShaders(format) ==> startup.phase
                == StartupPhase::CreatingPipelineLayout(format)
            &&& next.phase matches StartupPhase::MakingPipeline { format, .. } ==> startup.phase
                == StartupPhase::ReadingShaders(format) || (startup.phase matches
                StartupPhase::MakingPipeline { format: before, .. } && before == format)
            &&& next.phase matches StartupPhase::CreatingFence(format) ==> (startup.phase matches
                StartupPhase::MakingPipeline { format: before, .. } && before == format)
            &&& next.phase matches StartupPhase::CreatingSemaphore(format) ==> startup.phase
                == StartupPhase::CreatingFence(format)
            &&& action matches StartupAction::Run { renderer, .. } ==> {
                &&& startup.phase == StartupPhase::CreatingSemaphore(renderer.surface_color_format)
                &&& renderer.surface_extent.width == startup.extent.width
                &&& renderer.surface_extent.height == startup.extent.height
                &&& renderer.should_configure_swapchain
                &&& renderer.phase is Idle
            }
        }),
{
}

/// The pipeline is made for the first render pass and the first layout, the vertex
/// stage from the vertex source and the fragment stage from the fragment source; and
/// each of its steps is passed on as it is.
pub proof fn law_pipeline_is_made_within_the_startup(startup: Startup, reply: StartupReply)
    requires
        startup.accepts(reply),
    ensures
        ({
            let (next, action) = startup.after(reply);
            &&& reply matches StartupReply::ShadersRead { vertex_shader, fragment_shader } ==> {
                &&& action matches StartupAction::Pipeline(PipelineAction::CompileShader {
                    glsl,
                    kind,
                    ..
                }) && glsl == vertex_shader && kind is Vertex
                &&& next.phase matches StartupPhase::MakingPipeline {
                    build: PipelineBuild::CompilingVertex { target, fragment_shader: kept },
                    ..
                } && kept == fragment_shader && target.render_pass == 0 && target.pipeline_layout
                    == 0
            }
            &&& startup.phase matches StartupPhase::MakingPipeline { build, .. } ==> match (
            build.after(reply->Pipeline_0).1) {
                PipelineAction::Finish => action is CreateFence,
                PipelineAction::Abort(error) => action == StartupAction::Abort(
                    StartupError::Pipeline(error),
                ),
                step => {
                    &&& action == StartupAction::Pipeline(step)
                    &&& next.phase matches StartupPhase::MakingPipeline { build: now, .. } && now
                        == build.after(reply->Pipeline_0).0
                },
            }
        }),
{
}

/// The startup gives up exactly when something is not created or not found, with the
/// error of what it was; and a failure of the pipeline has the pipeline's own message.
pub proof fn law_failures_have_their_errors(startup: Startup, reply: StartupReply)
    requires
        startup.accepts(reply),
    ensures
        ({
            let action = startup.after(reply).1;
            let failed = reply == StartupReply::Created(false);
            &&& failed || reply == StartupReply::Adapters(0) ==> action is Abort
            &&& reply matches StartupReply::Pipeline(outcome) ==> (action is Abort <==> outcome
                == PipelineReply::Compiled(None) || outcome == PipelineReply::ModuleCreated(false)
                || outcome == PipelineReply::PipelineCreated(false))
            &&& action matches StartupAction::Abort(error) ==> match error {
                StartupError::CreateWindow => failed && startup.phase is CreatingWindow,
                StartupError::CreateInstance => failed && startup.phase is CreatingInstance,
                StartupError::CreateSurface => failed && startup.phase is CreatingSurface,
                StartupError::NoAdapter => reply == StartupReply::Adapters(0),
                StartupError::NoQueueFamily => reply is QueueFamilies,
                StartupError::OpenDevice => failed && startup.phase is OpeningDevice,
                StartupError::OutOfMemory => failed && (startup.phase is CreatingCommandPool
                    || startup.phase is CreatingRenderPass || startup.phase
                    is CreatingPipelineLayout || startup.phase is CreatingFence || startup.phase
                    is CreatingSemaphore),
                StartupError::Pipeline(inner) => reply is Pipeline && error.text() == inner.text(),
            }
        }),
{
}

/// The renderer of a new window has its extent and its format, and is still to be
/// configured.
pub proof fn law_first_renderer_is_unconfigured(format: Format, extent: Extent2D)
    ensures
        first_renderer(format, extent).surface_extent.width == extent.width,
        first_renderer(format, extent).surface_extent.height == extent.height,
        first_renderer(format, extent).surface_color_format == format,
        first_renderer(format, extent).should_configure_swapchain,
        first_renderer(format, extent).phase is Idle,
{
}

/// The program begins with its window, of the same logical size on every screen, and
/// keeps the extent that this has in physical pixels.
pub proof fn law_window_comes_first(extent: Extent2D)
    ensures
        first_step(extent).0.extent.width == extent.width,
        first_step(extent).0.extent.height == extent.height,
        first_step(extent).0.phase is CreatingWindow,
        first_step(extent).1 matches StartupAction::CreateWindow { title, width, height } && title@
            == "Rust GFX"@ && width == 512 && height == 512,
{
}

} // verus!
